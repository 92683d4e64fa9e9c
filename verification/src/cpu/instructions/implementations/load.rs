//! Loads from memory into a register.
use vstd::prelude::*;
use crate::arith::{sext16, sext32, sext8, sign_extend_byte, sign_extend_half, sign_extend_word, wrap64, wrapping_sum};
use crate::cpu::{Cpu, CpuView};
use crate::cpu::instructions::decoder::{
    funct3_of, i_imm_of, Funct3Decoder, ITypeDecoder, InstructionGetter, RdDecoder, Rs1Decoder,
};
use crate::cpu::instructions::implementations::{InstructionsExecutor, SubFunctions};
use crate::cpu::side_effects::OperationSideEffect;
use crate::error::AppErrors;
use crate::system_bus::bus_load_spec;

verus! {

/// The funct3 values of the loads.
impl SubFunctions {
    /// Load byte.
    pub const LB: u8 = 0b000;

    /// Load half word (16 bits).
    pub const LH: u8 = 0b001;

    /// Load word (32 bits).
    pub const LW: u8 = 0b010;

    /// Load double word (64 bits).
    pub const LD: u8 = 0b011;

    /// Load byte unsigned.
    pub const LBU: u8 = 0b100;

    /// Load half word unsigned (16 bits).
    pub const LHU: u8 = 0b101;

    /// Load word unsigned (32 bits).
    pub const LWU: u8 = 0b110;
}

/// The address of a load: rs1 + the I-format immediate, modulo 2^64.
pub open spec fn load_address(s: CpuView, w: u32) -> u64 {
    wrap64(s.rs1(w) + i_imm_of(w))
}

/// The value that a load brings into rd, or the fault that it meets: a
/// fault of the memory access, or the word itself where its funct3 names
/// no load.
pub open spec fn loaded_value(s: CpuView, w: u32) -> Result<u64, AppErrors> {
    let addr = load_address(s, w);
    let f = funct3_of(w);
    if f == 0 {
        match bus_load_spec(s.memory, addr, 1) {
            Ok(v) => Ok(sext8(v as u8)),
            Err(e) => Err(e),
        }
    } else if f == 1 {
        match bus_load_spec(s.memory, addr, 2) {
            Ok(v) => Ok(sext16(v as u16)),
            Err(e) => Err(e),
        }
    } else if f == 2 {
        match bus_load_spec(s.memory, addr, 4) {
            Ok(v) => Ok(sext32(v as u32)),
            Err(e) => Err(e),
        }
    } else if f == 3 {
        match bus_load_spec(s.memory, addr, 8) {
            Ok(v) => Ok(v as u64),
            Err(e) => Err(e),
        }
    } else if f == 4 {
        match bus_load_spec(s.memory, addr, 1) {
            Ok(v) => Ok(v as u64),
            Err(e) => Err(e),
        }
    } else if f == 5 {
        match bus_load_spec(s.memory, addr, 2) {
            Ok(v) => Ok(v as u64),
            Err(e) => Err(e),
        }
    } else if f == 6 {
        match bus_load_spec(s.memory, addr, 4) {
            Ok(v) => Ok(v as u64),
            Err(e) => Err(e),
        }
    } else {
        Err(AppErrors::InstructionNotImplemented { instruction: w })
    }
}

/// The state after a load: rd holds the loaded value, or nothing has
/// changed where the load met a fault.
pub open spec fn after_load(s: CpuView, w: u32) -> CpuView {
    match loaded_value(s, w) {
        Ok(v) => s.set_rd(w, v),
        Err(_) => s,
    }
}

/// What a load reports.
pub open spec fn load_result(s: CpuView, w: u32) -> Result<OperationSideEffect, AppErrors> {
    match loaded_value(s, w) {
        Ok(_) => Ok(OperationSideEffect::NoEffect),
        Err(e) => Err(e),
    }
}

impl InstructionsExecutor {
    /// Reads 1, 2, 4 or 8 bytes at rs1 plus the immediate and sets rd to
    /// them, sign-extended or zero-extended as funct3 says.
    pub fn load(cpu: &mut Cpu, decoder: ITypeDecoder) -> (r: Result<OperationSideEffect, AppErrors>)
        requires
            old(cpu)@.wf(),
        ensures
            final(cpu)@ == after_load(old(cpu)@, decoder.raw()),
            final(cpu)@.wf(),
            r == load_result(old(cpu)@, decoder.raw()),
    {
        let addr: u64 = wrapping_sum(
            cpu.registers[decoder.get_rs1_field() as usize],
            decoder.get_imm(),
        );
        let funct3: u8 = decoder.get_funct3_field();
        let rd: usize = decoder.get_rd_field() as usize;
        if funct3 == SubFunctions::LB {
            match cpu.system_bus.load8(addr) {
                Ok(value) => cpu.write_reg(rd, sign_extend_byte(value)),
                Err(err) => Err(err),
            }
        } else if funct3 == SubFunctions::LH {
            match cpu.system_bus.load16(addr) {
                Ok(value) => cpu.write_reg(rd, sign_extend_half(value)),
                Err(err) => Err(err),
            }
        } else if funct3 == SubFunctions::LW {
            match cpu.system_bus.load32(addr) {
                Ok(value) => cpu.write_reg(rd, sign_extend_word(value)),
                Err(err) => Err(err),
            }
        } else if funct3 == SubFunctions::LD {
            match cpu.system_bus.load64(addr) {
                Ok(value) => cpu.write_reg(rd, value),
                Err(err) => Err(err),
            }
        } else if funct3 == SubFunctions::LBU {
            match cpu.system_bus.load8(addr) {
                Ok(value) => cpu.write_reg(rd, value as u64),
                Err(err) => Err(err),
            }
        } else if funct3 == SubFunctions::LHU {
            match cpu.system_bus.load16(addr) {
                Ok(value) => cpu.write_reg(rd, value as u64),
                Err(err) => Err(err),
            }
        } else if funct3 == SubFunctions::LWU {
            match cpu.system_bus.load32(addr) {
                Ok(value) => cpu.write_reg(rd, value as u64),
                Err(err) => Err(err),
            }
        } else {
            Err(AppErrors::InstructionNotImplemented { instruction: decoder.get_raw_instruction() })
        }
    }
}

} // verus!
