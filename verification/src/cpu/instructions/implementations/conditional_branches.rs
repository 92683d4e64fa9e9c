//! Conditional branches: each places the program counter itself, at the
//! branch target where its comparison holds and at the next instruction
//! where it does not.
use vstd::prelude::*;
use crate::arith::{signed64, to_signed, wrap64, wrapping_sum};
use crate::cpu::{Cpu, CpuView};
use crate::cpu::instructions::DEFAULT_INSTRUCTION_SIZE_BYTES;
use crate::cpu::instructions::decoder::{
    b_imm_of, BTypeDecoder, InstructionGetter, Rs1Decoder, Rs2Decoder,
};
use crate::cpu::instructions::implementations::{InstructionsExecutor, SubFunctions};
use crate::cpu::side_effects::OperationSideEffect;
use crate::error::AppErrors;

verus! {

impl SubFunctions {
    pub const BEQ: u8 = 0b000;

    pub const BNE: u8 = 0b001;

    pub const BLT: u8 = 0b100;

    pub const BLTU: u8 = 0b110;

    pub const BGE: u8 = 0b101;

    pub const BGEU: u8 = 0b111;
}

/// The state after a branch: the program counter at the address of this
/// instruction plus the B-format immediate where the branch is taken, and at
/// the next instruction where it is not.
pub open spec fn after_branch(s: CpuView, w: u32, taken: bool) -> CpuView {
    if taken {
        s.with_pc(wrap64(s.program_counter + b_imm_of(w)))
    } else {
        s.with_pc(s.next_pc())
    }
}

/// A branch that is taken where rs1 and rs2 compare equal.
pub open spec fn after_beq(s: CpuView, w: u32) -> CpuView {
    after_branch(s, w, s.rs1(w) == s.rs2(w))
}

/// A branch that is taken where rs1 and rs2 compare not equal.
pub open spec fn after_bne(s: CpuView, w: u32) -> CpuView {
    after_branch(s, w, s.rs1(w) != s.rs2(w))
}

/// A branch that is taken where rs1 is less than rs2, as signed numbers.
pub open spec fn after_blt(s: CpuView, w: u32) -> CpuView {
    after_branch(s, w, signed64(s.rs1(w)) < signed64(s.rs2(w)))
}

/// A branch that is taken where rs1 is less than rs2, as unsigned numbers.
pub open spec fn after_bltu(s: CpuView, w: u32) -> CpuView {
    after_branch(s, w, s.rs1(w) < s.rs2(w))
}

/// A branch that is taken where rs1 is greater than or equal to rs2, as signed numbers.
pub open spec fn after_bge(s: CpuView, w: u32) -> CpuView {
    after_branch(s, w, signed64(s.rs1(w)) >= signed64(s.rs2(w)))
}

/// A branch that is taken where rs1 is greater than or equal to rs2, as unsigned numbers.
pub open spec fn after_bgeu(s: CpuView, w: u32) -> CpuView {
    after_branch(s, w, s.rs1(w) >= s.rs2(w))
}

impl InstructionsExecutor {
    /// Places the program counter after a branch.
    fn branch(cpu: &mut Cpu, instruction: BTypeDecoder, taken: bool)
        ensures
            final(cpu)@ == after_branch(old(cpu)@, instruction.raw(), taken),
    {
        if taken {
            cpu.program_counter = wrapping_sum(cpu.program_counter, instruction.get_imm());
        } else {
            cpu.program_counter = wrapping_sum(
                cpu.program_counter,
                DEFAULT_INSTRUCTION_SIZE_BYTES as u64,
            );
        }
    }

    /// Compares the values held in rs1 and rs2; where they are equal the program goes on
    /// at the address of this instruction plus the immediate.
    pub fn beq(cpu: &mut Cpu, instruction: BTypeDecoder) -> (r: Result<
        OperationSideEffect,
        AppErrors,
    >)
        requires
            old(cpu)@.wf(),
        ensures
            final(cpu)@ == after_beq(old(cpu)@, instruction.raw()),
            final(cpu)@.wf(),
            r == Ok::<OperationSideEffect, AppErrors>(OperationSideEffect::SkipPCIncrease),
    {
        let a: u64 = cpu.registers[instruction.get_rs1_field() as usize];
        let b: u64 = cpu.registers[instruction.get_rs2_field() as usize];
        Self::branch(cpu, instruction, a == b);
        Ok(OperationSideEffect::SkipPCIncrease)
    }

    /// Compares the values held in rs1 and rs2; where they differ the program goes on
    /// at the address of this instruction plus the immediate.
    pub fn bne(cpu: &mut Cpu, instruction: BTypeDecoder) -> (r: Result<
        OperationSideEffect,
        AppErrors,
    >)
        requires
            old(cpu)@.wf(),
        ensures
            final(cpu)@ == after_bne(old(cpu)@, instruction.raw()),
            final(cpu)@.wf(),
            r == Ok::<OperationSideEffect, AppErrors>(OperationSideEffect::SkipPCIncrease),
    {
        let a: u64 = cpu.registers[instruction.get_rs1_field() as usize];
        let b: u64 = cpu.registers[instruction.get_rs2_field() as usize];
        Self::branch(cpu, instruction, a != b);
        Ok(OperationSideEffect::SkipPCIncrease)
    }

    /// Compares the values held in rs1 and rs2 as signed numbers; where rs1 is less the
    /// program goes on at the address of this instruction plus the immediate.
    pub fn blt(cpu: &mut Cpu, instruction: BTypeDecoder) -> (r: Result<
        OperationSideEffect,
        AppErrors,
    >)
        requires
            old(cpu)@.wf(),
        ensures
            final(cpu)@ == after_blt(old(cpu)@, instruction.raw()),
            final(cpu)@.wf(),
            r == Ok::<OperationSideEffect, AppErrors>(OperationSideEffect::SkipPCIncrease),
    {
        let a: u64 = cpu.registers[instruction.get_rs1_field() as usize];
        let b: u64 = cpu.registers[instruction.get_rs2_field() as usize];
        Self::branch(cpu, instruction, to_signed(a) < to_signed(b));
        Ok(OperationSideEffect::SkipPCIncrease)
    }

    /// Compares the values held in rs1 and rs2 as unsigned numbers; where rs1 is less the
    /// program goes on at the address of this instruction plus the immediate.
    pub fn bltu(cpu: &mut Cpu, instruction: BTypeDecoder) -> (r: Result<
        OperationSideEffect,
        AppErrors,
    >)
        requires
            old(cpu)@.wf(),
        ensures
            final(cpu)@ == after_bltu(old(cpu)@, instruction.raw()),
            final(cpu)@.wf(),
            r == Ok::<OperationSideEffect, AppErrors>(OperationSideEffect::SkipPCIncrease),
    {
        let a: u64 = cpu.registers[instruction.get_rs1_field() as usize];
        let b: u64 = cpu.registers[instruction.get_rs2_field() as usize];
        Self::branch(cpu, instruction, a < b);
        Ok(OperationSideEffect::SkipPCIncrease)
    }

    /// Compares the values held in rs1 and rs2 as signed numbers; where rs1 is greater or
    /// equal the program goes on at the address of this instruction plus the immediate.
    pub fn bge(cpu: &mut Cpu, instruction: BTypeDecoder) -> (r: Result<
        OperationSideEffect,
        AppErrors,
    >)
        requires
            old(cpu)@.wf(),
        ensures
            final(cpu)@ == after_bge(old(cpu)@, instruction.raw()),
            final(cpu)@.wf(),
            r == Ok::<OperationSideEffect, AppErrors>(OperationSideEffect::SkipPCIncrease),
    {
        let a: u64 = cpu.registers[instruction.get_rs1_field() as usize];
        let b: u64 = cpu.registers[instruction.get_rs2_field() as usize];
        Self::branch(cpu, instruction, to_signed(a) >= to_signed(b));
        Ok(OperationSideEffect::SkipPCIncrease)
    }

    /// Compares the values held in rs1 and rs2 as unsigned numbers; where rs1 is greater
    /// or equal the program goes on at the address of this instruction plus the immediate.
    pub fn bgeu(cpu: &mut Cpu, instruction: BTypeDecoder) -> (r: Result<
        OperationSideEffect,
        AppErrors,
    >)
        requires
            old(cpu)@.wf(),
        ensures
            final(cpu)@ == after_bgeu(old(cpu)@, instruction.raw()),
            final(cpu)@.wf(),
            r == Ok::<OperationSideEffect, AppErrors>(OperationSideEffect::SkipPCIncrease),
    {
        let a: u64 = cpu.registers[instruction.get_rs1_field() as usize];
        let b: u64 = cpu.registers[instruction.get_rs2_field() as usize];
        Self::branch(cpu, instruction, a >= b);
        Ok(OperationSideEffect::SkipPCIncrease)
    }
}

} // verus!
