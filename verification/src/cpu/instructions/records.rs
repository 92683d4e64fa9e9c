//! Decoded instructions as plain records, one per format, that hold the
//! fields of the format and its sign-extended immediate.
use vstd::prelude::*;
use crate::cpu::instructions::decoder::{
    funct3_of, funct7_of, get_op_code, i_imm_of, opcode_of, rd_of, rs1_of, rs2_of, s_imm_of,
    u_imm_of, Funct3Decoder, Funct7Decoder, ITypeDecoder, OpcodeDecoder, RTypeDecoder, RdDecoder,
    Rs1Decoder, Rs2Decoder, STypeDecoder, UTypeDecoder,
};

verus! {

/// An instruction in the R format.
#[derive(Clone, Copy, Debug, PartialEq, Eq)]
pub struct RFormatInstruction {
    pub opcode: u8,
    pub rd: u8,
    pub funct3: u8,
    pub rs1: u8,
    pub rs2: u8,
    pub funct7: u8,
}

/// An instruction in the I format, with its sign-extended immediate.
#[derive(Clone, Copy, Debug, PartialEq, Eq)]
pub struct IFormatInstruction {
    pub opcode: u8,
    pub rd: u8,
    pub funct3: u8,
    pub rs1: u8,
    pub imm: u64,
}

/// An instruction in the S format, with its sign-extended immediate.
#[derive(Clone, Copy, Debug, PartialEq, Eq)]
pub struct SFormatInstruction {
    pub opcode: u8,
    pub funct3: u8,
    pub rs1: u8,
    pub rs2: u8,
    pub imm: u64,
}

/// An instruction in the U format, with its sign-extended immediate.
#[derive(Clone, Copy, Debug, PartialEq, Eq)]
pub struct UFormatInstruction {
    pub opcode: u8,
    pub rd: u8,
    pub imm: u64,
}

/// The word `w` read in the R format.
pub open spec fn r_format_of(w: u32) -> RFormatInstruction {
    RFormatInstruction {
        opcode: opcode_of(w),
        rd: rd_of(w),
        funct3: funct3_of(w),
        rs1: rs1_of(w),
        rs2: rs2_of(w),
        funct7: funct7_of(w),
    }
}

/// The word `w` read in the I format.
pub open spec fn i_format_of(w: u32) -> IFormatInstruction {
    IFormatInstruction {
        opcode: opcode_of(w),
        rd: rd_of(w),
        funct3: funct3_of(w),
        rs1: rs1_of(w),
        imm: i_imm_of(w),
    }
}

/// The word `w` read in the S format.
pub open spec fn s_format_of(w: u32) -> SFormatInstruction {
    SFormatInstruction {
        opcode: opcode_of(w),
        funct3: funct3_of(w),
        rs1: rs1_of(w),
        rs2: rs2_of(w),
        imm: s_imm_of(w),
    }
}

/// The word `w` read in the U format.
pub open spec fn u_format_of(w: u32) -> UFormatInstruction {
    UFormatInstruction { opcode: opcode_of(w), rd: rd_of(w), imm: u_imm_of(w) }
}

/// Decoding into records: one function for each format.
pub struct InstructionsDecoder;

impl InstructionsDecoder {
    /// Reads an instruction word in the R format.
    pub fn decode_r_format_instruction(instruction: u32) -> (r: RFormatInstruction)
        ensures
            r == r_format_of(instruction),
    {
        let d = RTypeDecoder::new(instruction);
        RFormatInstruction {
            opcode: d.get_opcode(),
            rd: d.get_rd_field(),
            funct3: d.get_funct3_field(),
            rs1: d.get_rs1_field(),
            rs2: d.get_rs2_field(),
            funct7: d.get_funct7_field(),
        }
    }

    /// Reads an instruction word in the I format.
    pub fn decode_i_format_instruction(instruction: u32) -> (r: IFormatInstruction)
        ensures
            r == i_format_of(instruction),
    {
        let d = ITypeDecoder::new(instruction);
        IFormatInstruction {
            opcode: d.get_opcode(),
            rd: d.get_rd_field(),
            funct3: d.get_funct3_field(),
            rs1: d.get_rs1_field(),
            imm: d.get_imm(),
        }
    }

    /// Reads an instruction word in the S format.
    pub fn decode_s_format_instruction(instruction: u32) -> (r: SFormatInstruction)
        ensures
            r == s_format_of(instruction),
    {
        let d = STypeDecoder::new(instruction);
        SFormatInstruction {
            opcode: d.get_opcode(),
            funct3: d.get_funct3_field(),
            rs1: d.get_rs1_field(),
            rs2: d.get_rs2_field(),
            imm: d.get_imm(),
        }
    }

    /// Reads an instruction word in the U format.
    pub fn decode_u_format_instruction(instruction: u32) -> (r: UFormatInstruction)
        ensures
            r == u_format_of(instruction),
    {
        let d = UTypeDecoder::new(instruction);
        UFormatInstruction { opcode: d.get_opcode(), rd: d.get_rd_field(), imm: d.get_imm() }
    }

    /// The opcode of an instruction word.
    pub fn get_op_code(instruction: u32) -> (r: u8)
        ensures
            r == opcode_of(instruction),
    {
        get_op_code(instruction)
    }
}

} // verus!
