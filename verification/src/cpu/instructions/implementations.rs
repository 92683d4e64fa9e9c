//! The instructions, one handler each, and the selector values that tell
//! them apart.
use vstd::prelude::*;

pub mod conditional_branches;
pub mod control_transfer;
pub mod int_register_immediate;
pub mod int_registers;
pub mod load;
pub mod store;

verus! {

/// The handlers of the instructions: each takes the machine and the
/// decoded instruction, and reports the side effect of the instruction.
pub struct InstructionsExecutor;

/// The values of the funct3 field, or of the funct3 field and a second
/// selector, that name an instruction under its opcode.
pub struct SubFunctions;

/// The opcodes.
pub struct CpuInstructionsOpCodes;

impl CpuInstructionsOpCodes {
    /// Operations on a register and an immediate.
    pub const INT_REG_IMMEDIATE: u8 = 0x13;

    /// Operations on the low word of a register and an immediate.
    pub const INT_REG_IMMEDIATE_RV64I: u8 = 0b0011011;

    /// Load upper immediate.
    pub const INT_REG_IMMEDIATE_LUI: u8 = 0x37;

    /// Add upper immediate to the program counter.
    pub const INT_REG_IMMEDIATE_AUIPC: u8 = 0x17;

    /// Operations on two registers.
    pub const INT_REG_REG_RV32I: u8 = 0x33;

    /// Operations on the low words of two registers.
    pub const INT_REG_REG_RV64I: u8 = 0b0111011;

    /// Memory fences.
    pub const MEM_ORDERING: u8 = 0b0001111;

    /// Conditional branches.
    pub const CONDITIONAL_BRANCHES: u8 = 0b1100011;

    /// Jump and link.
    pub const CONTROL_JAL: u8 = 0b1101111;

    /// Jump and link, to a register.
    pub const CONTROL_JALR: u8 = 0b1100111;

    /// Loads.
    pub const LOAD: u8 = 0x03;

    /// Stores.
    pub const STORE: u8 = 0x23;

    /// Environment calls, breakpoints, control and status registers.
    pub const SYSCALLS_CSR: u8 = 0b1110011;
}

impl SubFunctions {
    /// Memory fence.
    pub const FENCE: u8 = 0b000;

    /// Environment call: the immediate field under funct3 zero.
    pub const ECALL: u16 = 0x000;

    /// Breakpoint: the immediate field under funct3 zero.
    pub const EBREAK: u16 = 0x001;
}

} // verus!
