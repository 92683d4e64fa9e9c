//! What holds of every step of the machine, proved from the definition of a step.
use vstd::prelude::*;
use crate::arith::{clear_low_bit, wrap64};
use crate::consts::DRAM_BASE_ADDR;
use crate::cpu::CpuView;
use crate::cpu::executor::{done, execute_spec, exec_32bit_spec, is_fence, placed};
use crate::cpu::instructions::decoder::{
    b_imm_of, funct3_of, i_imm_of, j_imm_of, lemma_offsets_are_aligned, opcode_of, rd_of, rs1_of,
};
use crate::cpu::instructions::implementations::{CpuInstructionsOpCodes, SubFunctions};
use crate::cpu::instructions::implementations::conditional_branches::after_branch;
use crate::cpu::instructions::implementations::control_transfer::{after_jal, after_jalr};
use crate::cpu::instructions::implementations::load::{load_address, loaded_value};
use crate::cpu::instructions::implementations::store::{
    after_store, store_address, store_outcome, store_width,
};
use crate::cpu::side_effects::OperationSideEffect;
use crate::error::AppErrors;
use crate::memory::{lemma_store64_load64_round_trip, MemoryOpSize};

verus! {

/// The state after the words of `program` have been executed one after
/// another, whatever each of them reported.
pub open spec fn run_spec(s: CpuView, program: Seq<u32>) -> CpuView
    decreases program.len(),
{
    if program.len() == 0 {
        s
    } else {
        execute_spec(run_spec(s, program.drop_last()), program.last()).state
    }
}

/// A step keeps a well-formed state well formed: whatever the instruction
/// writes, and to whichever register, register 0 holds zero afterwards.
pub proof fn lemma_step_keeps_register_zero(s: CpuView, w: u32)
    requires
        s.wf(),
    ensures
        execute_spec(s, w).state.wf(),
        execute_spec(s, w).state.registers[0] == 0,
{
}

/// After any sequence of instructions, register 0 holds zero.
pub proof fn lemma_run_keeps_register_zero(s: CpuView, program: Seq<u32>)
    requires
        s.wf(),
    ensures
        run_spec(s, program).wf(),
        run_spec(s, program).registers[0] == 0,
    decreases program.len(),
{
    if program.len() > 0 {
        lemma_run_keeps_register_zero(s, program.drop_last());
        lemma_step_keeps_register_zero(run_spec(s, program.drop_last()), program.last());
    }
}

/// A step that reports a fault has changed nothing: no register, no byte
/// of memory, and not the program counter.
pub proof fn lemma_fault_changes_nothing(s: CpuView, w: u32)
    requires
        s.wf(),
    ensures
        execute_spec(s, w).result is Err ==> execute_spec(s, w).state == s,
{
}

/// A step never reports that the program counter was placed: where the
/// instruction did so, the step has taken note of it.
pub proof fn lemma_step_settles_program_counter(s: CpuView, w: u32)
    ensures
        execute_spec(s, w).result != Ok::<OperationSideEffect, AppErrors>(
            OperationSideEffect::SkipPCIncrease,
        ),
{
}

/// A fence changes no register and no byte of memory, and moves the
/// program counter on by exactly the instruction's width.
pub proof fn lemma_fence_only_advances(s: CpuView, w: u32)
    requires
        is_fence(w),
    ensures
        execute_spec(s, w).result == Ok::<OperationSideEffect, AppErrors>(
            OperationSideEffect::NoEffect,
        ),
        execute_spec(s, w).state == s.with_pc(wrap64(s.program_counter + 4)),
{
}

/// Only a store changes memory: after any other instruction every byte is as it was.
pub proof fn lemma_only_stores_change_memory(s: CpuView, w: u32)
    requires
        opcode_of(w) != CpuInstructionsOpCodes::STORE,
    ensures
        execute_spec(s, w).state.memory == s.memory,
{
}

/// A store changes no register, and moves the program counter on by the
/// instruction's width where it succeeds.
pub proof fn lemma_stores_change_no_register(s: CpuView, w: u32)
    requires
        opcode_of(w) == CpuInstructionsOpCodes::STORE,
    ensures
        execute_spec(s, w).state.registers == s.registers,
        execute_spec(s, w).state.cs_registers == s.cs_registers,
        execute_spec(s, w).result is Ok ==> execute_spec(s, w).state.program_counter == wrap64(
            s.program_counter + 4,
        ),
{
}

/// What a store of a double word has written, a load of a double word
/// from the same address brings back whole.
pub proof fn lemma_store_then_load_double_word(s: CpuView, store: u32, load: u32)
    requires
        store_width(store) == Some(MemoryOpSize::B64),
        store_outcome(s, store) is Ok,
        funct3_of(load) == SubFunctions::LD,
        load_address(after_store(s, store), load) == store_address(s, store),
    ensures
        loaded_value(after_store(s, store), load) == Ok::<u64, AppErrors>(s.rs2(store)),
{
    lemma_store64_load64_round_trip(
        s.memory,
        store_address(s, store) - DRAM_BASE_ADDR,
        s.rs2(store),
    );
}

/// No instruction changes a control and status register.
pub proof fn lemma_step_keeps_cs_registers(s: CpuView, w: u32)
    ensures
        execute_spec(s, w).state.cs_registers == s.cs_registers,
{
}

/// Only an instruction that reports that it has placed the program
/// counter has moved it.
pub proof fn lemma_program_counter_moves_only_when_placed(s: CpuView, w: u32)
    ensures
        exec_32bit_spec(s, w).result != Ok::<OperationSideEffect, AppErrors>(
            OperationSideEffect::SkipPCIncrease,
        ) ==> exec_32bit_spec(s, w).state.program_counter == s.program_counter,
{
}

/// The sum of two even numbers, wrapped round at 2^64, is even.
proof fn lemma_even_sum(a: u64, b: u64)
    requires
        a % 2 == 0,
        b % 2 == 0,
    ensures
        wrap64(a + b) % 2 == 0,
{
}

/// A number whose lowest bit was cleared is even.
proof fn lemma_cleared_is_even(v: u64)
    ensures
        clear_low_bit(v) % 2 == 0,
{
}

/// An instruction that has placed the program counter has placed it at an
/// even address, where it stood at one.
proof fn lemma_placed_program_counter_is_even(s: CpuView, w: u32)
    requires
        s.program_counter % 2 == 0,
    ensures
        exec_32bit_spec(s, w).result == Ok::<OperationSideEffect, AppErrors>(
            OperationSideEffect::SkipPCIncrease,
        ) ==> exec_32bit_spec(s, w).state.program_counter % 2 == 0,
{
    lemma_offsets_are_aligned(w);
    lemma_even_sum(s.program_counter, b_imm_of(w));
    lemma_even_sum(s.program_counter, j_imm_of(w));
    lemma_even_sum(s.program_counter, 4);
    let op = opcode_of(w);
    if op == CpuInstructionsOpCodes::CONTROL_JAL {
        assert(after_jal(s, w).program_counter == wrap64(s.program_counter + j_imm_of(w)));
    } else if op == CpuInstructionsOpCodes::CONTROL_JALR {
        let linked = s.set_rd(w, s.next_pc());
        let target = wrap64(linked.rs1(w) + i_imm_of(w));
        lemma_cleared_is_even(target);
        assert(after_jalr(s, w).program_counter == clear_low_bit(target));
    } else if op == CpuInstructionsOpCodes::CONDITIONAL_BRANCHES {
        assert(after_branch(s, w, true).program_counter % 2 == 0);
        assert(after_branch(s, w, false).program_counter % 2 == 0);
    }
}

/// A program counter that is even stays even: every offset of a branch
/// or a jump is even, and `jalr` clears the lowest bit of its target.
pub proof fn lemma_step_keeps_program_counter_even(s: CpuView, w: u32)
    requires
        s.program_counter % 2 == 0,
    ensures
        execute_spec(s, w).state.program_counter % 2 == 0,
{
    lemma_program_counter_moves_only_when_placed(s, w);
    lemma_placed_program_counter_is_even(s, w);
    let o = exec_32bit_spec(s, w);
    lemma_even_sum(o.state.program_counter, 4);
}

/// Whether `w` is a conditional branch.
pub open spec fn is_branch(w: u32) -> bool {
    opcode_of(w) == CpuInstructionsOpCodes::CONDITIONAL_BRANCHES && funct3_of(w) != 2 && funct3_of(
        w,
    ) != 3
}

/// A conditional branch changes the program counter and nothing else: it
/// ends at the address of the branch plus the offset, or at the address of
/// the branch plus 4, and never at the sum of the three.
pub proof fn lemma_branch_target(s: CpuView, w: u32)
    requires
        is_branch(w),
    ensures
        execute_spec(s, w).result == Ok::<OperationSideEffect, AppErrors>(
            OperationSideEffect::NoEffect,
        ),
        execute_spec(s, w).state == after_branch(s, w, true) || execute_spec(s, w).state
            == after_branch(s, w, false),
        after_branch(s, w, true) == s.with_pc(wrap64(s.program_counter + b_imm_of(w))),
        after_branch(s, w, false) == s.with_pc(wrap64(s.program_counter + 4)),
{
}

/// A `jal` leaves the address of the instruction after it in rd, unless
/// rd is register 0, and the program counter at its own address plus the offset.
pub proof fn lemma_jal_links_and_jumps(s: CpuView, w: u32)
    requires
        s.wf(),
        opcode_of(w) == CpuInstructionsOpCodes::CONTROL_JAL,
    ensures
        execute_spec(s, w).result == Ok::<OperationSideEffect, AppErrors>(
            OperationSideEffect::NoEffect,
        ),
        rd_of(w) != 0 ==> execute_spec(s, w).state.registers[rd_of(w) as int] == wrap64(
            s.program_counter + 4,
        ),
        execute_spec(s, w).state.program_counter == wrap64(s.program_counter + j_imm_of(w)),
{
}

/// A `jalr` leaves the address of the instruction after it in rd, unless
/// rd is register 0, and the program counter at an even address: the sum of
/// rs1 and the immediate with its lowest bit cleared, where rs1 is another
/// register than rd.
pub proof fn lemma_jalr_links_and_jumps(s: CpuView, w: u32)
    requires
        s.wf(),
        opcode_of(w) == CpuInstructionsOpCodes::CONTROL_JALR,
    ensures
        execute_spec(s, w).result == Ok::<OperationSideEffect, AppErrors>(
            OperationSideEffect::NoEffect,
        ),
        rd_of(w) != 0 ==> execute_spec(s, w).state.registers[rd_of(w) as int] == wrap64(
            s.program_counter + 4,
        ),
        execute_spec(s, w).state.program_counter % 2 == 0,
        rs1_of(w) != rd_of(w) ==> execute_spec(s, w).state.program_counter == clear_low_bit(
            wrap64(s.rs1(w) + i_imm_of(w)),
        ),
{
    let linked = s.set_rd(w, s.next_pc());
    let target = wrap64(linked.rs1(w) + i_imm_of(w));
    lemma_cleared_is_even(target);
    assert(exec_32bit_spec(s, w) == placed(after_jalr(s, w)));
    assert(execute_spec(s, w) == done(after_jalr(s, w)));
    assert(after_jalr(s, w) == linked.with_pc(clear_low_bit(target)));
}

} // verus!
