//! Operations on a register and an immediate, and the two upper-immediate
//! instructions.
use vstd::prelude::*;
use crate::arith::{
    flag, flag_of, low32, low_word, shamt5, shamt6, shift_amount, shift_amount_word,
    shift_right_arithmetic, sext32, sign_extend_word, signed64, sra64, to_signed, wrap64,
    wrapping_sum,
};
use crate::cpu::{Cpu, CpuView};
use crate::cpu::instructions::decoder::{
    i_imm_of, u_imm_of, ITypeDecoder, InstructionGetter, RdDecoder, Rs1Decoder, UTypeDecoder,
};
use crate::cpu::instructions::implementations::{InstructionsExecutor, SubFunctions};
use crate::cpu::side_effects::OperationSideEffect;
use crate::error::AppErrors;

verus! {

impl SubFunctions {
    /// Add immediate.
    pub const ADDI: u8 = 0x0;

    /// Add immediate word.
    pub const ADDIW: (u8, u8) = (0b000, 0b000);

    /// Set less than immediate.
    pub const SLTI: u8 = 0x2;

    /// Set less than immediate unsigned.
    pub const SLTIU: u8 = 0x3;

    pub const XORI: u8 = 0x4;

    pub const ORI: u8 = 0x6;

    pub const ANDI: u8 = 0x7;

    /// Shift left logical immediate.
    pub const SLLI: u8 = 0x01;

    /// Shift left logical immediate word.
    pub const SLLIW: (u8, u8) = (0b001, 0b0000000);

    /// The funct3 value that the two right shifts by an immediate share.
    pub const SRLI_SRAI_F3: u8 = 0b101;

    /// Shift right logical immediate: funct3, and the top 6 bits of the immediate field.
    pub const SRLI: (u8, u8) = (0b101, 0x00);

    /// Shift right arithmetic immediate: funct3, and the top 6 bits of the immediate field.
    pub const SRAI: (u8, u8) = (0b101, 0x10);

    /// Shift right logical immediate word.
    pub const SRLIW: (u8, u8) = (0b101, 0x00);

    /// Shift right arithmetic immediate word.
    pub const SRAIW: (u8, u8) = (0b101, 0b010_0000);
}

/// rd = rs1 + immediate, modulo 2^64.
pub open spec fn after_addi(s: CpuView, w: u32) -> CpuView {
    s.set_rd(w, wrap64(s.rs1(w) + i_imm_of(w)))
}

/// rd = 1 where rs1 is less than the immediate as signed numbers, else 0.
pub open spec fn after_slti(s: CpuView, w: u32) -> CpuView {
    s.set_rd(w, flag(signed64(s.rs1(w)) < signed64(i_imm_of(w))))
}

/// rd = 1 where rs1 is less than the sign-extended immediate as unsigned numbers, else 0.
pub open spec fn after_sltiu(s: CpuView, w: u32) -> CpuView {
    s.set_rd(w, flag(s.rs1(w) < i_imm_of(w)))
}

/// rd = rs1 | immediate.
pub open spec fn after_ori(s: CpuView, w: u32) -> CpuView {
    s.set_rd(w, s.rs1(w) | i_imm_of(w))
}

/// rd = rs1 ^ immediate.
pub open spec fn after_xori(s: CpuView, w: u32) -> CpuView {
    s.set_rd(w, s.rs1(w) ^ i_imm_of(w))
}

/// rd = rs1 & immediate.
pub open spec fn after_andi(s: CpuView, w: u32) -> CpuView {
    s.set_rd(w, s.rs1(w) & i_imm_of(w))
}

/// rd = rs1 shifted left by the low 6 bits of the immediate.
pub open spec fn after_slli(s: CpuView, w: u32) -> CpuView {
    s.set_rd(w, s.rs1(w) << shamt6(i_imm_of(w)))
}

/// rd = the low 32 bits of rs1 shifted left by the low 5 bits of the immediate, sign-extended.
pub open spec fn after_slliw(s: CpuView, w: u32) -> CpuView {
    s.set_rd(w, sext32(low32(s.rs1(w) << shamt5(i_imm_of(w)))))
}

/// rd = rs1 shifted right by the low 6 bits of the immediate, zeros coming in.
pub open spec fn after_srli(s: CpuView, w: u32) -> CpuView {
    s.set_rd(w, s.rs1(w) >> shamt6(i_imm_of(w)))
}

/// rd = the low 32 bits of rs1, shifted right by the low 5 bits of the immediate with zeros
/// coming in, sign-extended.
pub open spec fn after_srliw(s: CpuView, w: u32) -> CpuView {
    s.set_rd(w, sext32(low32(s.rs1(w)) >> shamt5(i_imm_of(w))))
}

/// rd = rs1 shifted right by the low 6 bits of the immediate, the sign coming in.
pub open spec fn after_srai(s: CpuView, w: u32) -> CpuView {
    s.set_rd(w, sra64(s.rs1(w), shamt6(i_imm_of(w)) as nat))
}

/// rd = the low 32 bits of rs1 as a signed number, shifted right by the low 5 bits of the
/// immediate with the sign coming in.
pub open spec fn after_sraiw(s: CpuView, w: u32) -> CpuView {
    s.set_rd(w, sra64(sext32(low32(s.rs1(w))), shamt5(i_imm_of(w)) as nat))
}

/// rd = the low 32 bits of rs1 + immediate, sign-extended.
pub open spec fn after_addiw(s: CpuView, w: u32) -> CpuView {
    s.set_rd(w, sext32(low32(wrap64(s.rs1(w) + i_imm_of(w)))))
}

/// rd = the U-format immediate.
pub open spec fn after_lui(s: CpuView, w: u32) -> CpuView {
    s.set_rd(w, u_imm_of(w))
}

/// rd = the address of this instruction + the U-format immediate, modulo 2^64.
pub open spec fn after_auipc(s: CpuView, w: u32) -> CpuView {
    s.set_rd(w, wrap64(s.program_counter + u_imm_of(w)))
}

impl InstructionsExecutor {
    /// Adds the immediate to the value held in rs1.
    pub fn addi(cpu: &mut Cpu, instruction: ITypeDecoder) -> (r: Result<
        OperationSideEffect,
        AppErrors,
    >)
        requires
            old(cpu)@.wf(),
        ensures
            final(cpu)@ == after_addi(old(cpu)@, instruction.raw()),
            final(cpu)@.wf(),
            r == Ok::<OperationSideEffect, AppErrors>(OperationSideEffect::NoEffect),
    {
        let a: u64 = cpu.registers[instruction.get_rs1_field() as usize];
        let imm: u64 = instruction.get_imm();
        cpu.write_reg(instruction.get_rd_field() as usize, wrapping_sum(a, imm))
    }

    /// Set less than immediate.
    pub fn slti(cpu: &mut Cpu, instruction: ITypeDecoder) -> (r: Result<
        OperationSideEffect,
        AppErrors,
    >)
        requires
            old(cpu)@.wf(),
        ensures
            final(cpu)@ == after_slti(old(cpu)@, instruction.raw()),
            final(cpu)@.wf(),
            r == Ok::<OperationSideEffect, AppErrors>(OperationSideEffect::NoEffect),
    {
        let a: u64 = cpu.registers[instruction.get_rs1_field() as usize];
        let imm: u64 = instruction.get_imm();
        cpu.write_reg(instruction.get_rd_field() as usize, flag_of(to_signed(a) < to_signed(imm)))
    }

    /// Set less than immediate, unsigned.
    pub fn sltiu(cpu: &mut Cpu, instruction: ITypeDecoder) -> (r: Result<
        OperationSideEffect,
        AppErrors,
    >)
        requires
            old(cpu)@.wf(),
        ensures
            final(cpu)@ == after_sltiu(old(cpu)@, instruction.raw()),
            final(cpu)@.wf(),
            r == Ok::<OperationSideEffect, AppErrors>(OperationSideEffect::NoEffect),
    {
        let a: u64 = cpu.registers[instruction.get_rs1_field() as usize];
        let imm: u64 = instruction.get_imm();
        cpu.write_reg(instruction.get_rd_field() as usize, flag_of(a < imm))
    }

    /// Bitwise OR with the immediate.
    pub fn ori(cpu: &mut Cpu, instruction: ITypeDecoder) -> (r: Result<
        OperationSideEffect,
        AppErrors,
    >)
        requires
            old(cpu)@.wf(),
        ensures
            final(cpu)@ == after_ori(old(cpu)@, instruction.raw()),
            final(cpu)@.wf(),
            r == Ok::<OperationSideEffect, AppErrors>(OperationSideEffect::NoEffect),
    {
        let a: u64 = cpu.registers[instruction.get_rs1_field() as usize];
        let imm: u64 = instruction.get_imm();
        cpu.write_reg(instruction.get_rd_field() as usize, a | imm)
    }

    /// Bitwise XOR with the immediate.
    pub fn xori(cpu: &mut Cpu, instruction: ITypeDecoder) -> (r: Result<
        OperationSideEffect,
        AppErrors,
    >)
        requires
            old(cpu)@.wf(),
        ensures
            final(cpu)@ == after_xori(old(cpu)@, instruction.raw()),
            final(cpu)@.wf(),
            r == Ok::<OperationSideEffect, AppErrors>(OperationSideEffect::NoEffect),
    {
        let a: u64 = cpu.registers[instruction.get_rs1_field() as usize];
        let imm: u64 = instruction.get_imm();
        cpu.write_reg(instruction.get_rd_field() as usize, a ^ imm)
    }

    /// Bitwise AND with the immediate.
    pub fn andi(cpu: &mut Cpu, instruction: ITypeDecoder) -> (r: Result<
        OperationSideEffect,
        AppErrors,
    >)
        requires
            old(cpu)@.wf(),
        ensures
            final(cpu)@ == after_andi(old(cpu)@, instruction.raw()),
            final(cpu)@.wf(),
            r == Ok::<OperationSideEffect, AppErrors>(OperationSideEffect::NoEffect),
    {
        let a: u64 = cpu.registers[instruction.get_rs1_field() as usize];
        let imm: u64 = instruction.get_imm();
        cpu.write_reg(instruction.get_rd_field() as usize, a & imm)
    }

    /// Shift left logical by an immediate amount.
    pub fn slli(cpu: &mut Cpu, instruction: ITypeDecoder) -> (r: Result<
        OperationSideEffect,
        AppErrors,
    >)
        requires
            old(cpu)@.wf(),
        ensures
            final(cpu)@ == after_slli(old(cpu)@, instruction.raw()),
            final(cpu)@.wf(),
            r == Ok::<OperationSideEffect, AppErrors>(OperationSideEffect::NoEffect),
    {
        let a: u64 = cpu.registers[instruction.get_rs1_field() as usize];
        let imm: u64 = instruction.get_imm();
        cpu.write_reg(instruction.get_rd_field() as usize, a << shift_amount(imm))
    }

    /// Shift left logical by an immediate amount, on the low word.
    pub fn slliw(cpu: &mut Cpu, instruction: ITypeDecoder) -> (r: Result<
        OperationSideEffect,
        AppErrors,
    >)
        requires
            old(cpu)@.wf(),
        ensures
            final(cpu)@ == after_slliw(old(cpu)@, instruction.raw()),
            final(cpu)@.wf(),
            r == Ok::<OperationSideEffect, AppErrors>(OperationSideEffect::NoEffect),
    {
        let a: u64 = cpu.registers[instruction.get_rs1_field() as usize];
        let imm: u64 = instruction.get_imm();
        cpu.write_reg(instruction.get_rd_field() as usize, sign_extend_word(low_word(a << shift_amount_word(imm))))
    }

    /// Shift right logical by an immediate amount.
    pub fn srli(cpu: &mut Cpu, instruction: ITypeDecoder) -> (r: Result<
        OperationSideEffect,
        AppErrors,
    >)
        requires
            old(cpu)@.wf(),
        ensures
            final(cpu)@ == after_srli(old(cpu)@, instruction.raw()),
            final(cpu)@.wf(),
            r == Ok::<OperationSideEffect, AppErrors>(OperationSideEffect::NoEffect),
    {
        let a: u64 = cpu.registers[instruction.get_rs1_field() as usize];
        let imm: u64 = instruction.get_imm();
        cpu.write_reg(instruction.get_rd_field() as usize, a >> shift_amount(imm))
    }

    /// Shift right logical by an immediate amount, on the low word.
    pub fn srliw(cpu: &mut Cpu, instruction: ITypeDecoder) -> (r: Result<
        OperationSideEffect,
        AppErrors,
    >)
        requires
            old(cpu)@.wf(),
        ensures
            final(cpu)@ == after_srliw(old(cpu)@, instruction.raw()),
            final(cpu)@.wf(),
            r == Ok::<OperationSideEffect, AppErrors>(OperationSideEffect::NoEffect),
    {
        let a: u64 = cpu.registers[instruction.get_rs1_field() as usize];
        let imm: u64 = instruction.get_imm();
        cpu.write_reg(instruction.get_rd_field() as usize, sign_extend_word(low_word(a) >> shift_amount_word(imm)))
    }

    /// Shift right arithmetic by an immediate amount.
    pub fn srai(cpu: &mut Cpu, instruction: ITypeDecoder) -> (r: Result<
        OperationSideEffect,
        AppErrors,
    >)
        requires
            old(cpu)@.wf(),
        ensures
            final(cpu)@ == after_srai(old(cpu)@, instruction.raw()),
            final(cpu)@.wf(),
            r == Ok::<OperationSideEffect, AppErrors>(OperationSideEffect::NoEffect),
    {
        let a: u64 = cpu.registers[instruction.get_rs1_field() as usize];
        let imm: u64 = instruction.get_imm();
        cpu.write_reg(instruction.get_rd_field() as usize, shift_right_arithmetic(a, shift_amount(imm)))
    }

    /// Shift right arithmetic by an immediate amount, on the low word.
    pub fn sraiw(cpu: &mut Cpu, instruction: ITypeDecoder) -> (r: Result<
        OperationSideEffect,
        AppErrors,
    >)
        requires
            old(cpu)@.wf(),
        ensures
            final(cpu)@ == after_sraiw(old(cpu)@, instruction.raw()),
            final(cpu)@.wf(),
            r == Ok::<OperationSideEffect, AppErrors>(OperationSideEffect::NoEffect),
    {
        let a: u64 = cpu.registers[instruction.get_rs1_field() as usize];
        let imm: u64 = instruction.get_imm();
        cpu.write_reg(instruction.get_rd_field() as usize, shift_right_arithmetic(sign_extend_word(low_word(a)), shift_amount_word(imm)))
    }

    /// Adds the immediate to rs1, keeps the low 32 bits of the sum and sign-extends them into rd.
    pub fn addiw(cpu: &mut Cpu, instruction: ITypeDecoder) -> (r: Result<
        OperationSideEffect,
        AppErrors,
    >)
        requires
            old(cpu)@.wf(),
        ensures
            final(cpu)@ == after_addiw(old(cpu)@, instruction.raw()),
            final(cpu)@.wf(),
            r == Ok::<OperationSideEffect, AppErrors>(OperationSideEffect::NoEffect),
    {
        let a: u64 = cpu.registers[instruction.get_rs1_field() as usize];
        let imm: u64 = instruction.get_imm();
        cpu.write_reg(instruction.get_rd_field() as usize, sign_extend_word(low_word(wrapping_sum(a, imm))))
    }

    /// Loads the upper immediate into rd.
    pub fn lui(cpu: &mut Cpu, instruction: UTypeDecoder) -> (r: Result<
        OperationSideEffect,
        AppErrors,
    >)
        requires
            old(cpu)@.wf(),
        ensures
            final(cpu)@ == after_lui(old(cpu)@, instruction.raw()),
            final(cpu)@.wf(),
            r == Ok::<OperationSideEffect, AppErrors>(OperationSideEffect::NoEffect),
    {
        cpu.write_reg(instruction.get_rd_field() as usize, instruction.get_imm())
    }

    /// Adds the upper immediate to the address of this instruction and sets rd to the sum.
    pub fn auipc(cpu: &mut Cpu, instruction: UTypeDecoder) -> (r: Result<
        OperationSideEffect,
        AppErrors,
    >)
        requires
            old(cpu)@.wf(),
        ensures
            final(cpu)@ == after_auipc(old(cpu)@, instruction.raw()),
            final(cpu)@.wf(),
            r == Ok::<OperationSideEffect, AppErrors>(OperationSideEffect::NoEffect),
    {
        let pc: u64 = cpu.program_counter;
        cpu.write_reg(instruction.get_rd_field() as usize, wrapping_sum(pc, instruction.get_imm()))
    }
}

} // verus!
