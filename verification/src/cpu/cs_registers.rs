//! The control and status registers: plain storage, but for the supervisor
//! interrupt-enable register, which is a window onto the machine one.
use vstd::prelude::*;
use crate::cpu::{Cpu, CpuView};

verus! {

/// The addresses of the machine-level control and status registers.
pub struct MachineLevelCSRegisters;

impl MachineLevelCSRegisters {
    /// Machine status register.
    pub const MSTATUS: usize = 0x300;

    /// Machine exception delegation register.
    pub const MEDELEG: usize = 0x302;

    /// Machine interrupt delegation register.
    pub const MIDELEG: usize = 0x303;

    /// Machine interrupt-enable register.
    pub const MIE: usize = 0x304;

    /// Machine trap-handler base address.
    pub const MTVEC: usize = 0x305;

    /// Machine exception program counter.
    pub const MEPC: usize = 0x341;

    /// Machine trap cause.
    pub const MCAUSE: usize = 0x342;

    /// Machine bad address or instruction.
    pub const MTVAL: usize = 0x343;

    /// Machine interrupt pending.
    pub const MIP: usize = 0x344;
}

/// The addresses of the supervisor-level control and status registers.
pub struct SupervisorLevelCSRegisters;

impl SupervisorLevelCSRegisters {
    /// Supervisor status register.
    pub const SSTATUS: usize = 0x100;

    /// Supervisor interrupt-enable register.
    pub const SIE: usize = 0x104;

    /// Supervisor trap handler base address.
    pub const STVEC: usize = 0x105;

    /// Supervisor exception program counter.
    pub const SEPC: usize = 0x141;

    /// Supervisor trap cause.
    pub const SCAUSE: usize = 0x142;

    /// Supervisor bad address or instruction.
    pub const STVAL: usize = 0x143;

    /// Supervisor interrupt pending.
    pub const SIP: usize = 0x144;

    /// Supervisor address translation and protection.
    pub const SATP: usize = 0x180;
}

/// What a read of the control and status register at `addr` gives: the
/// supervisor interrupt-enable register shows the bits of the machine one
/// that the machine interrupt-delegation register hands down.
pub open spec fn csr_read(csrs: Seq<u64>, addr: int) -> u64 {
    if addr == 0x104 {
        csrs[0x304] & csrs[0x303]
    } else {
        csrs[addr]
    }
}

/// The registers after `value` is written at `addr`: a write to the
/// supervisor interrupt-enable register changes the delegated bits of the
/// machine one, and nothing else.
pub open spec fn csr_write(csrs: Seq<u64>, addr: int, value: u64) -> Seq<u64> {
    if addr == 0x104 {
        csrs.update(0x304, (csrs[0x304] & !csrs[0x303]) | (value & csrs[0x303]))
    } else {
        csrs.update(addr, value)
    }
}

/// Bits that are masked in, by a mask and by its complement.
proof fn lemma_masked_merge(machine: u64, delegated: u64, value: u64)
    by (bit_vector)
    ensures
        ((machine & !delegated) | (value & delegated)) & delegated == value & delegated,
        ((machine & !delegated) | (value & delegated)) & !delegated == machine & !delegated,
{
}

/// A write to the supervisor interrupt-enable register is read back in
/// the delegated bits, and leaves the bits of the machine
/// interrupt-enable register that are not delegated as they were.
pub proof fn lemma_supervisor_write_touches_delegated_bits(csrs: Seq<u64>, value: u64)
    requires
        csrs.len() == 4096,
    ensures
        csr_read(csr_write(csrs, 0x104, value), 0x104) == value & csrs[0x303],
        csr_write(csrs, 0x104, value)[0x304] & !csrs[0x303] == csrs[0x304] & !csrs[0x303],
        forall|addr: int|
            0 <= addr < 4096 && addr != 0x304 ==> #[trigger] csr_write(csrs, 0x104, value)[addr]
                == csrs[addr],
{
    lemma_masked_merge(csrs[0x304], csrs[0x303], value);
}

/// A write to any other register is read back whole, and changes no other register.
pub proof fn lemma_plain_write_is_read_back(csrs: Seq<u64>, addr: int, value: u64)
    requires
        csrs.len() == 4096,
        0 <= addr < 4096,
        addr != 0x104,
    ensures
        csr_read(csr_write(csrs, addr, value), addr) == value,
        forall|other: int|
            0 <= other < 4096 && other != addr ==> #[trigger] csr_write(csrs, addr, value)[other]
                == csrs[other],
{
}

impl Cpu {
    /// Reads a control and status register.
    pub fn load_csr(&self, addr: usize) -> (value: u64)
        requires
            addr < 4096,
        ensures
            value == csr_read(self@.cs_registers, addr as int),
    {
        if addr == SupervisorLevelCSRegisters::SIE {
            self.cs_registers[MachineLevelCSRegisters::MIE]
                & self.cs_registers[MachineLevelCSRegisters::MIDELEG]
        } else {
            self.cs_registers[addr]
        }
    }

    /// Writes a control and status register.
    pub fn store_csr(&mut self, addr: usize, value: u64)
        requires
            addr < 4096,
        ensures
            final(self)@ == (CpuView {
                cs_registers: csr_write(old(self)@.cs_registers, addr as int, value),
                ..old(self)@
            }),
    {
        if addr == SupervisorLevelCSRegisters::SIE {
            self.cs_registers[MachineLevelCSRegisters::MIE] = (self.cs_registers[MachineLevelCSRegisters::MIE]
                & !self.cs_registers[MachineLevelCSRegisters::MIDELEG]) | (value
                & self.cs_registers[MachineLevelCSRegisters::MIDELEG]);
        } else {
            self.cs_registers[addr] = value;
        }
    }
}

} // verus!
