//! An emulator core for the 64-bit base integer RISC-V instruction set:
//! field decoding, instruction dispatch and the per-instruction semantics
//! over a register file, a program counter and a flat little-endian memory.
pub mod arith;
pub mod consts;
pub mod error;
pub mod memory;
pub mod system_bus;
pub mod cpu;
