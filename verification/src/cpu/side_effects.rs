//! What an instruction tells the dispatcher about the step that follows it.
use vstd::prelude::*;

verus! {

/// How the dispatcher is to go on after an instruction.
#[derive(Clone, Copy, Debug, PartialEq, Eq)]
pub enum OperationSideEffect {
    /// Nothing: the program counter moves on by the instruction's width.
    NoEffect,
    /// The instruction has placed the program counter itself.
    SkipPCIncrease,
    /// An `ebreak` was met.
    TriggerBreakpoint,
    /// An `ecall` was met.
    TriggerSyscall,
}

} // verus!
