//! The faults that end an instruction cycle.
use vstd::prelude::*;

verus! {

/// A fault: each ends the instruction that met it.
#[derive(Debug, Clone, Copy, PartialEq, Eq)]
pub enum AppErrors {
    /// A write to a protected register was rejected.
    RegisterWriteProhibited,
    /// A register index of 32 or more was asked for.
    OutOfBoundRegister,
    /// A machine address below the memory's base address.
    AddressNotFound,
    /// A memory access that does not lie within the memory.
    OutOfBoundsPointer,
    /// An instruction whose opcode, or whose form under a known opcode, is not executed.
    InstructionNotImplemented { instruction: u32 },
    /// A known opcode with an unknown function selector: the funct3 field,
    /// and the second selector where one was read.
    FuctionNotImplemented(u8, Option<u8>),
    /// An instruction of a width that is not known.
    InstructionSizeNotSupported,
    /// A fault of no known kind.
    Unknown,
}

} // verus!
