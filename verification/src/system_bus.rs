//! The bus between the processor and the memory: it turns a machine address
//! into a position in the memory by taking off the memory's base address.
use vstd::prelude::*;
use crate::consts::DRAM_BASE_ADDR;
use crate::error::AppErrors;
use crate::memory::{load_spec, store_result, store_spec, MemoryOpSize, SystemMemory};

verus! {

/// The width of one access over the bus.
pub type BusOpSize = MemoryOpSize;

/// What a load of `n` bytes at the machine address `addr` gives.
pub open spec fn bus_load_spec(mem: Seq<u8>, addr: u64, n: nat) -> Result<int, AppErrors> {
    if addr < DRAM_BASE_ADDR {
        Err(AppErrors::AddressNotFound)
    } else {
        load_spec(mem, addr - DRAM_BASE_ADDR, n)
    }
}

/// Whether a store of `n` bytes at the machine address `addr` succeeds, and
/// the fault that it meets where it does not.
pub open spec fn bus_store_result(mem: Seq<u8>, addr: u64, n: nat) -> Result<(), AppErrors> {
    if addr < DRAM_BASE_ADDR {
        Err(AppErrors::AddressNotFound)
    } else {
        store_result(mem, addr - DRAM_BASE_ADDR, n)
    }
}

/// The memory after a store of `n` bytes at the machine address `addr` is
/// asked for: unchanged where the store fails.
pub open spec fn bus_store_spec(mem: Seq<u8>, addr: u64, n: nat, v: int) -> Seq<u8> {
    if addr < DRAM_BASE_ADDR {
        mem
    } else {
        store_spec(mem, addr - DRAM_BASE_ADDR, n, v)
    }
}

/// The bus, with the memory behind it.
pub struct SystemBus {
    system_memory: SystemMemory,
}

impl View for SystemBus {
    type V = Seq<u8>;

    closed spec fn view(&self) -> Seq<u8> {
        self.system_memory@
    }
}

impl SystemBus {
    /// A bus to a memory of `memory_size` bytes that begins with `init_code`.
    pub fn new(memory_size: u64, init_code: Vec<u8>) -> (bus: Self)
        requires
            memory_size <= usize::MAX,
            init_code@.len() <= memory_size,
        ensures
            bus@.len() == memory_size,
            forall|i: int| 0 <= i < init_code@.len() ==> bus@[i] == init_code@[i],
            forall|i: int| init_code@.len() <= i < memory_size ==> bus@[i] == 0u8,
    {
        Self { system_memory: SystemMemory::new(memory_size, init_code) }
    }

    /// Reads `size` bytes at the machine address `addr`, zero-extended to 64 bits.
    pub fn load(&self, addr: u64, size: BusOpSize) -> (r: Result<u64, AppErrors>)
        ensures
            match bus_load_spec(self@, addr, size.bytes()) {
                Ok(v) => r == Ok::<u64, AppErrors>(v as u64) && r->Ok_0 as int == v,
                Err(e) => r == Err::<u64, AppErrors>(e),
            },
    {
        if addr < DRAM_BASE_ADDR {
            Err(AppErrors::AddressNotFound)
        } else {
            self.system_memory.load(addr - DRAM_BASE_ADDR, size)
        }
    }

    /// Reads the byte at the machine address `addr`.
    pub fn load8(&self, addr: u64) -> (r: Result<u8, AppErrors>)
        ensures
            match bus_load_spec(self@, addr, 1) {
                Ok(v) => r == Ok::<u8, AppErrors>(v as u8) && r->Ok_0 as int == v,
                Err(e) => r == Err::<u8, AppErrors>(e),
            },
    {
        if addr < DRAM_BASE_ADDR {
            Err(AppErrors::AddressNotFound)
        } else {
            self.system_memory.load8(addr - DRAM_BASE_ADDR)
        }
    }

    /// Reads the two bytes from the machine address `addr` on.
    pub fn load16(&self, addr: u64) -> (r: Result<u16, AppErrors>)
        ensures
            match bus_load_spec(self@, addr, 2) {
                Ok(v) => r == Ok::<u16, AppErrors>(v as u16) && r->Ok_0 as int == v,
                Err(e) => r == Err::<u16, AppErrors>(e),
            },
    {
        if addr < DRAM_BASE_ADDR {
            Err(AppErrors::AddressNotFound)
        } else {
            self.system_memory.load16(addr - DRAM_BASE_ADDR)
        }
    }

    /// Reads the four bytes from the machine address `addr` on.
    pub fn load32(&self, addr: u64) -> (r: Result<u32, AppErrors>)
        ensures
            match bus_load_spec(self@, addr, 4) {
                Ok(v) => r == Ok::<u32, AppErrors>(v as u32) && r->Ok_0 as int == v,
                Err(e) => r == Err::<u32, AppErrors>(e),
            },
    {
        if addr < DRAM_BASE_ADDR {
            Err(AppErrors::AddressNotFound)
        } else {
            self.system_memory.load32(addr - DRAM_BASE_ADDR)
        }
    }

    /// Reads the eight bytes from the machine address `addr` on.
    pub fn load64(&self, addr: u64) -> (r: Result<u64, AppErrors>)
        ensures
            match bus_load_spec(self@, addr, 8) {
                Ok(v) => r == Ok::<u64, AppErrors>(v as u64) && r->Ok_0 as int == v,
                Err(e) => r == Err::<u64, AppErrors>(e),
            },
    {
        if addr < DRAM_BASE_ADDR {
            Err(AppErrors::AddressNotFound)
        } else {
            self.system_memory.load64(addr - DRAM_BASE_ADDR)
        }
    }

    /// Writes the low `size` bytes of `value` at the machine address
    /// `addr`, or nothing where the store fails.
    pub fn store(&mut self, addr: u64, size: BusOpSize, value: u64) -> (r: Result<(), AppErrors>)
        ensures
            r == bus_store_result(old(self)@, addr, size.bytes()),
            final(self)@ == bus_store_spec(old(self)@, addr, size.bytes(), value as int),
    {
        if addr < DRAM_BASE_ADDR {
            Err(AppErrors::AddressNotFound)
        } else {
            self.system_memory.store(addr - DRAM_BASE_ADDR, size, value)
        }
    }
}

} // verus!
