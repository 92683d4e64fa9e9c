//! Operations on two registers.
use vstd::prelude::*;
use crate::arith::{
    flag, flag_of, low32, low_word, shamt6, shift_amount, shift_right_arithmetic, sext32,
    sign_extend_word, signed64, sra64, to_signed, wrap64, wrapping_difference, wrapping_sum,
};
use crate::cpu::{Cpu, CpuView};
use crate::cpu::instructions::decoder::{
    InstructionGetter, RTypeDecoder, RdDecoder, Rs1Decoder, Rs2Decoder,
};
use crate::cpu::instructions::implementations::{InstructionsExecutor, SubFunctions};
use crate::cpu::side_effects::OperationSideEffect;
use crate::error::AppErrors;

verus! {

impl SubFunctions {
    pub const ADD: (u8, u8) = (0x00, 0x00);

    pub const SUB: (u8, u8) = (0x00, 0b0100000);

    pub const SLT: (u8, u8) = (0b010, 0b0000000);

    pub const SLTU: (u8, u8) = (0b011, 0b0000000);

    pub const AND: (u8, u8) = (0b111, 0b0000000);

    pub const OR: (u8, u8) = (0b110, 0b0000000);

    pub const XOR: (u8, u8) = (0b100, 0b0000000);

    pub const SLL: (u8, u8) = (0b001, 0b0000000);

    pub const SRL: (u8, u8) = (0b101, 0b0000000);

    pub const SRA: (u8, u8) = (0b101, 0b0100000);

    pub const ADDW: (u8, u8) = (0x00, 0x00);

    pub const SUBW: (u8, u8) = (0x00, 0b0100000);
}

/// rd = rs1 + rs2, modulo 2^64.
pub open spec fn after_add(s: CpuView, w: u32) -> CpuView {
    s.set_rd(w, wrap64(s.rs1(w) + s.rs2(w)))
}

/// rd = rs1 - rs2, modulo 2^64.
pub open spec fn after_sub(s: CpuView, w: u32) -> CpuView {
    s.set_rd(w, wrap64(s.rs1(w) - s.rs2(w)))
}

/// rd = 1 where rs1 is less than rs2 as signed numbers, else 0.
pub open spec fn after_slt(s: CpuView, w: u32) -> CpuView {
    s.set_rd(w, flag(signed64(s.rs1(w)) < signed64(s.rs2(w))))
}

/// rd = 1 where rs1 is less than rs2 as unsigned numbers, else 0.
pub open spec fn after_sltu(s: CpuView, w: u32) -> CpuView {
    s.set_rd(w, flag(s.rs1(w) < s.rs2(w)))
}

/// rd = rs1 & rs2.
pub open spec fn after_and(s: CpuView, w: u32) -> CpuView {
    s.set_rd(w, s.rs1(w) & s.rs2(w))
}

/// rd = rs1 | rs2.
pub open spec fn after_or(s: CpuView, w: u32) -> CpuView {
    s.set_rd(w, s.rs1(w) | s.rs2(w))
}

/// rd = rs1 ^ rs2.
pub open spec fn after_xor(s: CpuView, w: u32) -> CpuView {
    s.set_rd(w, s.rs1(w) ^ s.rs2(w))
}

/// rd = rs1 shifted left by the low 6 bits of rs2.
pub open spec fn after_sll(s: CpuView, w: u32) -> CpuView {
    s.set_rd(w, s.rs1(w) << shamt6(s.rs2(w)))
}

/// rd = rs1 shifted right by the low 6 bits of rs2, zeros coming in.
pub open spec fn after_srl(s: CpuView, w: u32) -> CpuView {
    s.set_rd(w, s.rs1(w) >> shamt6(s.rs2(w)))
}

/// rd = rs1 shifted right by the low 6 bits of rs2, the sign coming in.
pub open spec fn after_sra(s: CpuView, w: u32) -> CpuView {
    s.set_rd(w, sra64(s.rs1(w), shamt6(s.rs2(w)) as nat))
}

/// rd = the low 32 bits of rs1 + rs2, sign-extended.
pub open spec fn after_addw(s: CpuView, w: u32) -> CpuView {
    s.set_rd(w, sext32(low32(wrap64(s.rs1(w) + s.rs2(w)))))
}

/// rd = the low 32 bits of rs1 - rs2, sign-extended.
pub open spec fn after_subw(s: CpuView, w: u32) -> CpuView {
    s.set_rd(w, sext32(low32(wrap64(s.rs1(w) - s.rs2(w)))))
}

impl InstructionsExecutor {
    /// Adds the value held in rs2 to that in rs1 and sets rd to the sum.
    pub fn add(cpu: &mut Cpu, instruction: RTypeDecoder) -> (r: Result<
        OperationSideEffect,
        AppErrors,
    >)
        requires
            old(cpu)@.wf(),
        ensures
            final(cpu)@ == after_add(old(cpu)@, instruction.raw()),
            final(cpu)@.wf(),
            r == Ok::<OperationSideEffect, AppErrors>(OperationSideEffect::NoEffect),
    {
        let a: u64 = cpu.registers[instruction.get_rs1_field() as usize];
        let b: u64 = cpu.registers[instruction.get_rs2_field() as usize];
        cpu.write_reg(instruction.get_rd_field() as usize, wrapping_sum(a, b))
    }

    /// Subtracts the value held in rs2 from that in rs1 and sets rd to the difference.
    pub fn sub(cpu: &mut Cpu, instruction: RTypeDecoder) -> (r: Result<
        OperationSideEffect,
        AppErrors,
    >)
        requires
            old(cpu)@.wf(),
        ensures
            final(cpu)@ == after_sub(old(cpu)@, instruction.raw()),
            final(cpu)@.wf(),
            r == Ok::<OperationSideEffect, AppErrors>(OperationSideEffect::NoEffect),
    {
        let a: u64 = cpu.registers[instruction.get_rs1_field() as usize];
        let b: u64 = cpu.registers[instruction.get_rs2_field() as usize];
        cpu.write_reg(instruction.get_rd_field() as usize, wrapping_difference(a, b))
    }

    /// Compares the registers as signed numbers, rs1 < rs2, and sets rd to the outcome.
    pub fn slt(cpu: &mut Cpu, instruction: RTypeDecoder) -> (r: Result<
        OperationSideEffect,
        AppErrors,
    >)
        requires
            old(cpu)@.wf(),
        ensures
            final(cpu)@ == after_slt(old(cpu)@, instruction.raw()),
            final(cpu)@.wf(),
            r == Ok::<OperationSideEffect, AppErrors>(OperationSideEffect::NoEffect),
    {
        let a: u64 = cpu.registers[instruction.get_rs1_field() as usize];
        let b: u64 = cpu.registers[instruction.get_rs2_field() as usize];
        cpu.write_reg(instruction.get_rd_field() as usize, flag_of(to_signed(a) < to_signed(b)))
    }

    /// Compares the registers as unsigned numbers, rs1 < rs2, and sets rd to the outcome.
    pub fn sltu(cpu: &mut Cpu, instruction: RTypeDecoder) -> (r: Result<
        OperationSideEffect,
        AppErrors,
    >)
        requires
            old(cpu)@.wf(),
        ensures
            final(cpu)@ == after_sltu(old(cpu)@, instruction.raw()),
            final(cpu)@.wf(),
            r == Ok::<OperationSideEffect, AppErrors>(OperationSideEffect::NoEffect),
    {
        let a: u64 = cpu.registers[instruction.get_rs1_field() as usize];
        let b: u64 = cpu.registers[instruction.get_rs2_field() as usize];
        cpu.write_reg(instruction.get_rd_field() as usize, flag_of(a < b))
    }

    /// Bitwise AND.
    pub fn and(cpu: &mut Cpu, instruction: RTypeDecoder) -> (r: Result<
        OperationSideEffect,
        AppErrors,
    >)
        requires
            old(cpu)@.wf(),
        ensures
            final(cpu)@ == after_and(old(cpu)@, instruction.raw()),
            final(cpu)@.wf(),
            r == Ok::<OperationSideEffect, AppErrors>(OperationSideEffect::NoEffect),
    {
        let a: u64 = cpu.registers[instruction.get_rs1_field() as usize];
        let b: u64 = cpu.registers[instruction.get_rs2_field() as usize];
        cpu.write_reg(instruction.get_rd_field() as usize, a & b)
    }

    /// Bitwise OR.
    pub fn or(cpu: &mut Cpu, instruction: RTypeDecoder) -> (r: Result<
        OperationSideEffect,
        AppErrors,
    >)
        requires
            old(cpu)@.wf(),
        ensures
            final(cpu)@ == after_or(old(cpu)@, instruction.raw()),
            final(cpu)@.wf(),
            r == Ok::<OperationSideEffect, AppErrors>(OperationSideEffect::NoEffect),
    {
        let a: u64 = cpu.registers[instruction.get_rs1_field() as usize];
        let b: u64 = cpu.registers[instruction.get_rs2_field() as usize];
        cpu.write_reg(instruction.get_rd_field() as usize, a | b)
    }

    /// Bitwise XOR.
    pub fn xor(cpu: &mut Cpu, instruction: RTypeDecoder) -> (r: Result<
        OperationSideEffect,
        AppErrors,
    >)
        requires
            old(cpu)@.wf(),
        ensures
            final(cpu)@ == after_xor(old(cpu)@, instruction.raw()),
            final(cpu)@.wf(),
            r == Ok::<OperationSideEffect, AppErrors>(OperationSideEffect::NoEffect),
    {
        let a: u64 = cpu.registers[instruction.get_rs1_field() as usize];
        let b: u64 = cpu.registers[instruction.get_rs2_field() as usize];
        cpu.write_reg(instruction.get_rd_field() as usize, a ^ b)
    }

    /// Shifts rs1 left by the amount in the low 6 bits of rs2.
    pub fn sll(cpu: &mut Cpu, instruction: RTypeDecoder) -> (r: Result<
        OperationSideEffect,
        AppErrors,
    >)
        requires
            old(cpu)@.wf(),
        ensures
            final(cpu)@ == after_sll(old(cpu)@, instruction.raw()),
            final(cpu)@.wf(),
            r == Ok::<OperationSideEffect, AppErrors>(OperationSideEffect::NoEffect),
    {
        let a: u64 = cpu.registers[instruction.get_rs1_field() as usize];
        let b: u64 = cpu.registers[instruction.get_rs2_field() as usize];
        cpu.write_reg(instruction.get_rd_field() as usize, a << shift_amount(b))
    }

    /// Shifts rs1 right by the amount in the low 6 bits of rs2, zeros coming in.
    pub fn srl(cpu: &mut Cpu, instruction: RTypeDecoder) -> (r: Result<
        OperationSideEffect,
        AppErrors,
    >)
        requires
            old(cpu)@.wf(),
        ensures
            final(cpu)@ == after_srl(old(cpu)@, instruction.raw()),
            final(cpu)@.wf(),
            r == Ok::<OperationSideEffect, AppErrors>(OperationSideEffect::NoEffect),
    {
        let a: u64 = cpu.registers[instruction.get_rs1_field() as usize];
        let b: u64 = cpu.registers[instruction.get_rs2_field() as usize];
        cpu.write_reg(instruction.get_rd_field() as usize, a >> shift_amount(b))
    }

    /// Shifts rs1 right by the amount in the low 6 bits of rs2, the sign coming in.
    pub fn sra(cpu: &mut Cpu, instruction: RTypeDecoder) -> (r: Result<
        OperationSideEffect,
        AppErrors,
    >)
        requires
            old(cpu)@.wf(),
        ensures
            final(cpu)@ == after_sra(old(cpu)@, instruction.raw()),
            final(cpu)@.wf(),
            r == Ok::<OperationSideEffect, AppErrors>(OperationSideEffect::NoEffect),
    {
        let a: u64 = cpu.registers[instruction.get_rs1_field() as usize];
        let b: u64 = cpu.registers[instruction.get_rs2_field() as usize];
        cpu.write_reg(
            instruction.get_rd_field() as usize,
            shift_right_arithmetic(a, shift_amount(b)),
        )
    }

    /// Adds rs2 to rs1, keeps the low 32 bits of the sum and sign-extends them into rd.
    pub fn addw(cpu: &mut Cpu, instruction: RTypeDecoder) -> (r: Result<
        OperationSideEffect,
        AppErrors,
    >)
        requires
            old(cpu)@.wf(),
        ensures
            final(cpu)@ == after_addw(old(cpu)@, instruction.raw()),
            final(cpu)@.wf(),
            r == Ok::<OperationSideEffect, AppErrors>(OperationSideEffect::NoEffect),
    {
        let a: u64 = cpu.registers[instruction.get_rs1_field() as usize];
        let b: u64 = cpu.registers[instruction.get_rs2_field() as usize];
        cpu.write_reg(
            instruction.get_rd_field() as usize,
            sign_extend_word(low_word(wrapping_sum(a, b))),
        )
    }

    /// Subtracts rs2 from rs1, keeps the low 32 bits of the difference and
    /// sign-extends them into rd.
    pub fn subw(cpu: &mut Cpu, instruction: RTypeDecoder) -> (r: Result<
        OperationSideEffect,
        AppErrors,
    >)
        requires
            old(cpu)@.wf(),
        ensures
            final(cpu)@ == after_subw(old(cpu)@, instruction.raw()),
            final(cpu)@.wf(),
            r == Ok::<OperationSideEffect, AppErrors>(OperationSideEffect::NoEffect),
    {
        let a: u64 = cpu.registers[instruction.get_rs1_field() as usize];
        let b: u64 = cpu.registers[instruction.get_rs2_field() as usize];
        cpu.write_reg(
            instruction.get_rd_field() as usize,
            sign_extend_word(low_word(wrapping_difference(a, b))),
        )
    }
}

} // verus!
