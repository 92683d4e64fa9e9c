//! Instruction words: how they are taken apart, and what each of them does.
use vstd::prelude::*;

pub mod decoder;
pub mod implementations;
pub mod records;

verus! {

/// The width in bytes of every instruction that is executed.
pub const DEFAULT_INSTRUCTION_SIZE_BYTES: usize = 4;

} // verus!
