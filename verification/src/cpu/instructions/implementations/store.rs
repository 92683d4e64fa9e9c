//! Stores from a register into memory.
use vstd::prelude::*;
use crate::arith::{wrap64, wrapping_sum};
use crate::cpu::{Cpu, CpuView};
use crate::cpu::instructions::decoder::{
    funct3_of, s_imm_of, Funct3Decoder, InstructionGetter, Rs1Decoder, Rs2Decoder, STypeDecoder,
};
use crate::cpu::instructions::implementations::{InstructionsExecutor, SubFunctions};
use crate::cpu::side_effects::OperationSideEffect;
use crate::error::AppErrors;
use crate::memory::MemoryOpSize;
use crate::system_bus::{bus_store_result, bus_store_spec};

verus! {

/// The funct3 values of the stores.
impl SubFunctions {
    /// Store byte.
    pub const SB: u8 = 0b000;

    /// Store half word (16 bits).
    pub const SH: u8 = 0b001;

    /// Store word (32 bits).
    pub const SW: u8 = 0b010;

    /// Store double word (64 bits).
    pub const SD: u8 = 0b011;
}

/// The address of a store: rs1 + the S-format immediate, modulo 2^64.
pub open spec fn store_address(s: CpuView, w: u32) -> u64 {
    wrap64(s.rs1(w) + s_imm_of(w))
}

/// The width of the store that the funct3 field of `w` names, if it names one.
pub open spec fn store_width(w: u32) -> Option<MemoryOpSize> {
    let f = funct3_of(w);
    if f == 0 {
        Some(MemoryOpSize::B8)
    } else if f == 1 {
        Some(MemoryOpSize::B16)
    } else if f == 2 {
        Some(MemoryOpSize::B32)
    } else if f == 3 {
        Some(MemoryOpSize::B64)
    } else {
        None
    }
}

/// The state after a store: the low bytes of rs2 are in memory, or nothing
/// has changed where the store met a fault.
pub open spec fn after_store(s: CpuView, w: u32) -> CpuView {
    match store_width(w) {
        Some(size) => s.with_memory(
            bus_store_spec(s.memory, store_address(s, w), size.bytes(), s.rs2(w) as int),
        ),
        None => s,
    }
}

/// What a store reports: a fault of the memory access, or the funct3
/// field where it names no store.
pub open spec fn store_outcome(s: CpuView, w: u32) -> Result<OperationSideEffect, AppErrors> {
    match store_width(w) {
        Some(size) => match bus_store_result(s.memory, store_address(s, w), size.bytes()) {
            Ok(_) => Ok(OperationSideEffect::NoEffect),
            Err(e) => Err(e),
        },
        None => Err(AppErrors::FuctionNotImplemented(funct3_of(w), None)),
    }
}

impl InstructionsExecutor {
    /// Writes the low 1, 2, 4 or 8 bytes of rs2 at rs1 plus the immediate.
    pub fn store(cpu: &mut Cpu, decoder: STypeDecoder) -> (r: Result<OperationSideEffect, AppErrors>)
        requires
            old(cpu)@.wf(),
        ensures
            final(cpu)@ == after_store(old(cpu)@, decoder.raw()),
            final(cpu)@.wf(),
            r == store_outcome(old(cpu)@, decoder.raw()),
    {
        let addr: u64 = wrapping_sum(
            cpu.registers[decoder.get_rs1_field() as usize],
            decoder.get_imm(),
        );
        let value: u64 = cpu.registers[decoder.get_rs2_field() as usize];
        let funct3: u8 = decoder.get_funct3_field();
        let size: MemoryOpSize = if funct3 == SubFunctions::SB {
            MemoryOpSize::B8
        } else if funct3 == SubFunctions::SH {
            MemoryOpSize::B16
        } else if funct3 == SubFunctions::SW {
            MemoryOpSize::B32
        } else if funct3 == SubFunctions::SD {
            MemoryOpSize::B64
        } else {
            return Err(AppErrors::FuctionNotImplemented(funct3, None));
        };
        match cpu.system_bus.store(addr, size, value) {
            Ok(()) => Ok(OperationSideEffect::NoEffect),
            Err(err) => Err(err),
        }
    }
}

} // verus!
