use emulator::cpu::instructions::decoder::{
    get_instruction_size, get_op_code, BTypeDecoder, Funct3Decoder, Funct7Decoder, ITypeDecoder,
    InstructionFormat, InstructionGetter, InstructionSize, Instrunction32Decoder, JTypeDecoder,
    OpcodeDecoder, RTypeDecoder, RdDecoder, Rs1Decoder, Rs2Decoder, STypeDecoder, UTypeDecoder,
};
use emulator::cpu::instructions::records::{
    IFormatInstruction, InstructionsDecoder, RFormatInstruction, SFormatInstruction,
    UFormatInstruction,
};
use emulator::error::AppErrors;

#[test]
fn i_format_word_decodes_to_its_fields() {
    // addi a0, a0, 10
    let d = ITypeDecoder::new(0x00A5_0513);
    assert_eq!(d.get_raw_instruction(), 0x00A5_0513);
    assert_eq!(d.get_opcode(), 0x13);
    assert_eq!(d.get_rd_field(), 10);
    assert_eq!(d.get_funct3_field(), 0);
    assert_eq!(d.get_rs1_field(), 10);
    assert_eq!(d.get_imm(), 10);
}

#[test]
fn r_format_word_decodes_to_its_fields() {
    // sub x3, x1, x2
    let d = RTypeDecoder::new(0x4020_81B3);
    assert_eq!(d.get_opcode(), 0x33);
    assert_eq!(d.get_rd_field(), 3);
    assert_eq!(d.get_funct3_field(), 0);
    assert_eq!(d.get_rs1_field(), 1);
    assert_eq!(d.get_rs2_field(), 2);
    assert_eq!(d.get_funct7_field(), 0x20);
}

#[test]
fn funct7_has_seven_bits() {
    assert_eq!(RTypeDecoder::new(0x8020_81B3).get_funct7_field(), 0x40);
    assert_eq!(RTypeDecoder::new(0xFFFF_FFFF).get_funct7_field(), 0x7f);
}

#[test]
fn all_ones_word_gives_all_ones_fields() {
    let d = Instrunction32Decoder::new(0xFFFF_FFFF);
    assert_eq!(d.get_opcode(), 0x7f);
    assert_eq!(d.get_rd_field(), 31);
    assert_eq!(d.get_funct3_field(), 7);
    assert_eq!(d.get_rs1_field(), 31);
    assert_eq!(d.get_rs2_field(), 31);
    assert_eq!(d.get_funct7_field(), 0x7f);
}

#[test]
fn i_immediate_is_sign_extended() {
    // addi x3, x1, -1
    assert_eq!(ITypeDecoder::new(0xFFF0_8193).get_imm(), 0xFFFF_FFFF_FFFF_FFFF);
    // addi x3, x1, 0x7ff
    assert_eq!(ITypeDecoder::new(0x7FF0_8193).get_imm(), 0x7ff);
    // ld x3, -8(x1)
    assert_eq!(ITypeDecoder::new(0xFF80_B183).get_imm(), 0xFFFF_FFFF_FFFF_FFF8);
}

#[test]
fn s_immediate_is_reassembled_and_sign_extended() {
    // sd x2, -8(x1)
    let d = STypeDecoder::new(0xFE20_BC23);
    assert_eq!(d.get_imm(), 0xFFFF_FFFF_FFFF_FFF8);
    assert_eq!(d.get_rs1_field(), 1);
    assert_eq!(d.get_rs2_field(), 2);
    assert_eq!(d.get_funct3_field(), 3);
    assert_eq!(d.get_opcode(), 0x23);
    // sd x2, 0x7ff(x1)
    assert_eq!(STypeDecoder::new(0x7E20_BFA3).get_imm(), 0x7ff);
    // sd x2, 0(x1)
    assert_eq!(STypeDecoder::new(0x0020_B023).get_imm(), 0);
}

#[test]
fn b_immediate_is_reassembled_and_sign_extended() {
    // beq x1, x2, -4
    let d = BTypeDecoder::new(0xFE20_8EE3);
    assert_eq!(d.get_imm(), 0xFFFF_FFFF_FFFF_FFFC);
    assert_eq!(d.get_rs1_field(), 1);
    assert_eq!(d.get_rs2_field(), 2);
    assert_eq!(d.get_funct3_field(), 0);
    // beq x1, x2, 8
    assert_eq!(BTypeDecoder::new(0x0020_8463).get_imm(), 8);
    // bit 11 of the offset comes from bit 7 of the word
    assert_eq!(BTypeDecoder::new(0x0020_80E3).get_imm(), 0x800);
    // the smallest offset
    assert_eq!(BTypeDecoder::new(0x8020_8063).get_imm(), 0xFFFF_FFFF_FFFF_F000);
    // the largest offset
    assert_eq!(BTypeDecoder::new(0x7E20_8FE3).get_imm(), 0xffe);
}

#[test]
fn b_immediate_is_even() {
    for w in [0xFFFF_FFFFu32, 0xFE20_8EE3, 0x0020_8463, 0x1234_5678, 0x8000_0080] {
        assert_eq!(BTypeDecoder::new(w).get_imm() & 1, 0);
        assert_eq!(JTypeDecoder::new(w).get_imm() & 1, 0);
    }
}

#[test]
fn u_immediate_keeps_the_high_bits() {
    // lui x5, 0xfffff
    let d = UTypeDecoder::new(0xFFFF_F2B7);
    assert_eq!(d.get_imm(), 0xFFFF_FFFF_FFFF_F000);
    assert_eq!(d.get_rd_field(), 5);
    assert_eq!(d.get_opcode(), 0x37);
    // lui x5, 0x12345
    assert_eq!(UTypeDecoder::new(0x1234_52B7).get_imm(), 0x1234_5000);
}

#[test]
fn j_immediate_is_reassembled_and_sign_extended() {
    // jal x1, 8
    let d = JTypeDecoder::new(0x0080_00EF);
    assert_eq!(d.get_imm(), 8);
    assert_eq!(d.get_rd_field(), 1);
    assert_eq!(d.get_opcode(), 0x6f);
    // jal x1, -8
    assert_eq!(JTypeDecoder::new(0xFF9F_F0EF).get_imm(), 0xFFFF_FFFF_FFFF_FFF8);
    // bit 11 of the offset comes from bit 20 of the word
    assert_eq!(JTypeDecoder::new(0x0010_00EF).get_imm(), 0x800);
    // bits [19:12] stay in place
    assert_eq!(JTypeDecoder::new(0x0000_10EF).get_imm(), 0x1000);
    assert_eq!(JTypeDecoder::new(0x7FF7_F0EF).get_imm(), 0x7fffe);
    // the smallest offset
    assert_eq!(JTypeDecoder::new(0x8000_00EF).get_imm(), 0xFFFF_FFFF_FFF0_0000);
}

#[test]
fn one_decoder_reads_every_format() {
    assert_eq!(
        Instrunction32Decoder::new(0xFFF0_8193).get_imm_field(InstructionFormat::I),
        0xFFFF_FFFF_FFFF_FFFF
    );
    assert_eq!(
        Instrunction32Decoder::new(0xFE20_BC23).get_imm_field(InstructionFormat::S),
        0xFFFF_FFFF_FFFF_FFF8
    );
    assert_eq!(
        Instrunction32Decoder::new(0xFE20_8EE3).get_imm_field(InstructionFormat::B),
        0xFFFF_FFFF_FFFF_FFFC
    );
    assert_eq!(
        Instrunction32Decoder::new(0x1234_52B7).get_imm_field(InstructionFormat::U),
        0x1234_5000
    );
    assert_eq!(
        Instrunction32Decoder::new(0xFF9F_F0EF).get_imm_field(InstructionFormat::J),
        0xFFFF_FFFF_FFFF_FFF8
    );
}

#[test]
fn fields_agree_with_division() {
    let mut w: u32 = 0x9E37_79B9;
    for _ in 0..2000 {
        w = w.wrapping_mul(1_664_525).wrapping_add(1_013_904_223);
        let d = Instrunction32Decoder::new(w);
        assert_eq!(d.get_opcode() as u32, w % 128);
        assert_eq!(d.get_rd_field() as u32, (w / 128) % 32);
        assert_eq!(d.get_funct3_field() as u32, (w / 4096) % 8);
        assert_eq!(d.get_rs1_field() as u32, (w / 32768) % 32);
        assert_eq!(d.get_rs2_field() as u32, (w / 1_048_576) % 32);
        assert_eq!(d.get_funct7_field() as u32, w / 33_554_432);
        let field = (w / 1_048_576) as i64;
        let signed = if field >= 2048 { field - 4096 } else { field };
        assert_eq!(d.get_imm_field(InstructionFormat::I) as i64, signed);
    }
}

#[test]
fn opcode_is_the_low_seven_bits() {
    assert_eq!(get_op_code(0x00A5_0513), 0x13);
    assert_eq!(get_op_code(0xFFFF_FF80), 0);
    assert_eq!(get_op_code(0x0000_007F), 0x7f);
}

#[test]
fn size_goes_by_the_two_low_bits() {
    assert_eq!(get_instruction_size(0x13), Ok::<InstructionSize, AppErrors>(InstructionSize::B32));
    assert_eq!(get_instruction_size(0x7f), Ok(InstructionSize::B32));
    assert_eq!(get_instruction_size(0x03), Ok(InstructionSize::B32));
    assert_eq!(get_instruction_size(0x00), Ok(InstructionSize::B16));
    assert_eq!(get_instruction_size(0x01), Ok(InstructionSize::B16));
    assert_eq!(get_instruction_size(0x02), Ok(InstructionSize::B16));
    assert_eq!(get_instruction_size(0x7e), Ok(InstructionSize::B16));
    assert_eq!(InstructionSize::B16.size_bytes(), 2);
    assert_eq!(InstructionSize::B32.size_bytes(), 4);
}

#[test]
fn records_hold_the_fields_of_their_format() {
    assert_eq!(
        InstructionsDecoder::decode_i_format_instruction(0x00A5_0513),
        IFormatInstruction { opcode: 0x13, rd: 10, funct3: 0, rs1: 10, imm: 10 }
    );
    assert_eq!(
        InstructionsDecoder::decode_i_format_instruction(0xFF80_B183),
        IFormatInstruction { opcode: 0x03, rd: 3, funct3: 3, rs1: 1, imm: 0xFFFF_FFFF_FFFF_FFF8 }
    );
    assert_eq!(
        InstructionsDecoder::decode_r_format_instruction(0x4020_D1B3),
        RFormatInstruction { opcode: 0x33, rd: 3, funct3: 5, rs1: 1, rs2: 2, funct7: 0x20 }
    );
    assert_eq!(
        InstructionsDecoder::decode_s_format_instruction(0xFE20_BC23),
        SFormatInstruction { opcode: 0x23, funct3: 3, rs1: 1, rs2: 2, imm: 0xFFFF_FFFF_FFFF_FFF8 }
    );
    assert_eq!(
        InstructionsDecoder::decode_u_format_instruction(0x1234_52B7),
        UFormatInstruction { opcode: 0x37, rd: 5, imm: 0x1234_5000 }
    );
    assert_eq!(InstructionsDecoder::get_op_code(0x1234_52B7), 0x37);
}
