//! Unconditional jumps: each writes the return address and places the
//! program counter itself.
use vstd::prelude::*;
use crate::arith::{align_even, clear_low_bit, wrap64, wrapping_sum};
use crate::cpu::{Cpu, CpuView};
use crate::cpu::instructions::DEFAULT_INSTRUCTION_SIZE_BYTES;
use crate::cpu::instructions::decoder::{
    i_imm_of, j_imm_of, ITypeDecoder, InstructionGetter, JTypeDecoder, RdDecoder, Rs1Decoder,
};
use crate::cpu::instructions::implementations::InstructionsExecutor;
use crate::cpu::side_effects::OperationSideEffect;
use crate::error::AppErrors;

verus! {

/// rd = the address of the next instruction; the program counter = the
/// address of this instruction + the J-format immediate.
pub open spec fn after_jal(s: CpuView, w: u32) -> CpuView {
    s.set_rd(w, s.next_pc()).with_pc(wrap64(s.program_counter + j_imm_of(w)))
}

/// rd = the address of the next instruction; then the program counter =
/// rs1 + the I-format immediate, with its lowest bit cleared. The return
/// address is written first: where rd and rs1 are one register, the jump
/// goes by the return address.
pub open spec fn after_jalr(s: CpuView, w: u32) -> CpuView {
    let linked = s.set_rd(w, s.next_pc());
    linked.with_pc(clear_low_bit(wrap64(linked.rs1(w) + i_imm_of(w))))
}

impl InstructionsExecutor {
    /// Stores the address of the next instruction in rd, to return to
    /// later, and moves the program counter by the immediate.
    pub fn jal(cpu: &mut Cpu, instruction: JTypeDecoder) -> (r: Result<
        OperationSideEffect,
        AppErrors,
    >)
        requires
            old(cpu)@.wf(),
        ensures
            final(cpu)@ == after_jal(old(cpu)@, instruction.raw()),
            final(cpu)@.wf(),
            r == Ok::<OperationSideEffect, AppErrors>(OperationSideEffect::SkipPCIncrease),
    {
        let pc: u64 = cpu.program_counter;
        let _ = cpu.write_reg(
            instruction.get_rd_field() as usize,
            wrapping_sum(pc, DEFAULT_INSTRUCTION_SIZE_BYTES as u64),
        );
        cpu.program_counter = wrapping_sum(pc, instruction.get_imm());
        Ok(OperationSideEffect::SkipPCIncrease)
    }

    /// Stores the address of the next instruction in rd, then jumps to the
    /// sum of rs1 and the immediate, with its lowest bit set to zero.
    pub fn jalr(cpu: &mut Cpu, instruction: ITypeDecoder) -> (r: Result<
        OperationSideEffect,
        AppErrors,
    >)
        requires
            old(cpu)@.wf(),
        ensures
            final(cpu)@ == after_jalr(old(cpu)@, instruction.raw()),
            final(cpu)@.wf(),
            r == Ok::<OperationSideEffect, AppErrors>(OperationSideEffect::SkipPCIncrease),
    {
        let pc: u64 = cpu.program_counter;
        let _ = cpu.write_reg(
            instruction.get_rd_field() as usize,
            wrapping_sum(pc, DEFAULT_INSTRUCTION_SIZE_BYTES as u64),
        );
        let base: u64 = cpu.registers[instruction.get_rs1_field() as usize];
        cpu.program_counter = align_even(wrapping_sum(base, instruction.get_imm()));
        Ok(OperationSideEffect::SkipPCIncrease)
    }
}

} // verus!
