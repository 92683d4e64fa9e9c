//! The processor: register file, program counter, control and status
//! registers, and the bus to the memory.
use vstd::prelude::*;
use crate::consts::DRAM_BASE_ADDR;
use crate::error::AppErrors;
use crate::system_bus::{bus_load_spec, SystemBus};
use crate::cpu::instructions::DEFAULT_INSTRUCTION_SIZE_BYTES;
use crate::cpu::instructions::decoder::{rd_of, rs1_of, rs2_of};
use crate::cpu::side_effects::OperationSideEffect;
use crate::arith::wrap64;

pub mod cs_registers;
pub mod executor;
pub mod instructions;
pub mod side_effects;
pub mod theorems;

verus! {

/// The number of general-purpose registers.
pub const CPU_REG_COUNT: usize = 32;

/// The number of control and status registers.
pub const CSR_COUNT: usize = 4096;

/// The architectural state of the machine, as plain mathematical values.
pub struct CpuView {
    pub registers: Seq<u64>,
    pub program_counter: u64,
    pub memory: Seq<u8>,
    pub cs_registers: Seq<u64>,
}

impl CpuView {
    /// A state is well formed when it has its 32 registers, the first of
    /// which holds zero, and its 4096 control and status registers.
    pub open spec fn wf(self) -> bool {
        &&& self.registers.len() == 32
        &&& self.registers[0] == 0
        &&& self.cs_registers.len() == 4096
    }

    /// The state after `value` is written to register `rd`: a write to
    /// register 0 is discarded.
    pub open spec fn write_reg(self, rd: int, value: u64) -> CpuView {
        if rd == 0 {
            self
        } else {
            CpuView { registers: self.registers.update(rd, value), ..self }
        }
    }

    /// The state with the program counter at `pc`.
    pub open spec fn with_pc(self, pc: u64) -> CpuView {
        CpuView { program_counter: pc, ..self }
    }

    /// The state with `memory` as its memory.
    pub open spec fn with_memory(self, memory: Seq<u8>) -> CpuView {
        CpuView { memory, ..self }
    }

    /// The value of the register that the rs1 field of `w` names.
    pub open spec fn rs1(self, w: u32) -> u64 {
        self.registers[rs1_of(w) as int]
    }

    /// The value of the register that the rs2 field of `w` names.
    pub open spec fn rs2(self, w: u32) -> u64 {
        self.registers[rs2_of(w) as int]
    }

    /// The state after `value` is written to the register that the rd field of `w` names.
    pub open spec fn set_rd(self, w: u32, value: u64) -> CpuView {
        self.write_reg(rd_of(w) as int, value)
    }

    /// The address of the instruction after the one at the program counter.
    pub open spec fn next_pc(self) -> u64 {
        wrap64(self.program_counter + 4)
    }
}

/// The machine: 32 registers, the program counter, the bus to the memory,
/// and 4096 control and status registers.
pub struct Cpu {
    pub(crate) registers: [u64; 32],
    pub(crate) program_counter: u64,
    pub system_bus: SystemBus,
    pub(crate) cs_registers: [u64; 4096],
}

impl Cpu {
    /// The state of the machine.
    pub open(crate) spec fn view(&self) -> CpuView {
        CpuView {
            registers: self.registers@,
            program_counter: self.program_counter,
            memory: self.system_bus@,
            cs_registers: self.cs_registers@,
        }
    }

    /// A machine with `memory_size` bytes of memory that begin with
    /// `init_code`: the program counter at the memory's base address, the
    /// stack pointer (register 2) at the memory's last byte, every other
    /// register zero.
    pub fn new(memory_size: u64, init_code: Vec<u8>) -> (cpu: Self)
        requires
            memory_size <= usize::MAX,
            init_code@.len() <= memory_size,
            DRAM_BASE_ADDR + memory_size - 1 <= u64::MAX,
        ensures
            cpu@.wf(),
            cpu@.program_counter == DRAM_BASE_ADDR,
            cpu@.registers[2] == DRAM_BASE_ADDR + memory_size - 1,
            forall|i: int| 0 <= i < 32 && i != 2 ==> cpu@.registers[i] == 0,
            forall|i: int| 0 <= i < 4096 ==> cpu@.cs_registers[i] == 0,
            cpu@.memory.len() == memory_size,
            forall|i: int| 0 <= i < init_code@.len() ==> cpu@.memory[i] == init_code@[i],
            forall|i: int| init_code@.len() <= i < memory_size ==> cpu@.memory[i] == 0u8,
    {
        let mut cpu = Self {
            registers: [0u64;32],
            program_counter: DRAM_BASE_ADDR,
            system_bus: SystemBus::new(memory_size, init_code),
            cs_registers: [0u64;4096],
        };
        cpu.registers[2] = DRAM_BASE_ADDR - 1 + memory_size;
        cpu
    }

    /// Reads the instruction word at the program counter.
    pub fn fetch_next_instruction(&self) -> (r: Result<u32, AppErrors>)
        ensures
            match bus_load_spec(self@.memory, self@.program_counter, 4) {
                Ok(v) => r == Ok::<u32, AppErrors>(v as u32) && r->Ok_0 as int == v,
                Err(e) => r == Err::<u32, AppErrors>(e),
            },
    {
        self.system_bus.load32(self.program_counter)
    }

    /// Reads a register by its index.
    pub fn read_reg(&self, register: usize) -> (r: Result<u64, AppErrors>)
        ensures
            register < 32 ==> r == Ok::<u64, AppErrors>(self@.registers[register as int]),
            register >= 32 ==> r == Err::<u64, AppErrors>(AppErrors::OutOfBoundRegister),
    {
        if register >= CPU_REG_COUNT {
            return Err(AppErrors::OutOfBoundRegister);
        }
        Ok(self.registers[register])
    }

    /// Writes a register; a write to register 0 is discarded.
    pub fn write_reg(&mut self, register: usize, value: u64) -> (r: Result<
        OperationSideEffect,
        AppErrors,
    >)
        requires
            old(self)@.wf(),
            register < 32,
        ensures
            final(self)@ == old(self)@.write_reg(register as int, value),
            final(self)@.wf(),
            r == Ok::<OperationSideEffect, AppErrors>(OperationSideEffect::NoEffect),
    {
        self.registers[register] = value;
        self.registers[0] = 0;
        assert(self.registers@ =~= old(self)@.write_reg(register as int, value).registers);
        Ok(OperationSideEffect::NoEffect)
    }

    /// Moves the program counter on by one instruction, to look up the
    /// next instruction in the next cycle.
    pub fn increase_program_counter(&mut self)
        ensures
            final(self)@ == old(self)@.with_pc(old(self)@.next_pc()),
    {
        self.program_counter = self.program_counter.wrapping_add(
            DEFAULT_INSTRUCTION_SIZE_BYTES as u64,
        );
    }

    /// Places the program counter at `pc`, and changes nothing else.
    pub fn set_program_counter(&mut self, pc: u64)
        ensures
            final(self)@ == old(self)@.with_pc(pc),
    {
        self.program_counter = pc;
    }

    /// The address of the next instruction to fetch.
    pub fn get_program_counter(&self) -> (pc: u64)
        ensures
            pc == self@.program_counter,
    {
        self.program_counter
    }

    /// The values of the 32 registers.
    pub fn get_registers(&self) -> (registers: [u64; 32])
        ensures
            registers@ == self@.registers,
    {
        self.registers
    }
}

} // verus!
