//! A flat, byte-addressed, little-endian memory with bounds-checked accesses.
use vstd::prelude::*;
use crate::error::AppErrors;

verus! {

/// The width of one memory access.
#[derive(Clone, Copy, Debug, PartialEq, Eq)]
pub enum MemoryOpSize {
    B8,
    B16,
    B32,
    B64,
}

impl MemoryOpSize {
    /// The number of bytes that an access of this width touches.
    pub open spec fn bytes(self) -> nat {
        match self {
            MemoryOpSize::B8 => 1,
            MemoryOpSize::B16 => 2,
            MemoryOpSize::B32 => 4,
            MemoryOpSize::B64 => 8,
        }
    }
}

/// The number that the `n` bytes from `addr` on spell, least significant byte first.
pub open spec fn le_load(mem: Seq<u8>, addr: int, n: nat) -> int
    decreases n,
{
    if n == 0 {
        0
    } else {
        mem[addr] as int + 256 * le_load(mem, addr + 1, (n - 1) as nat)
    }
}

/// The memory after the low `n` bytes of `v` are written from `addr` on,
/// least significant byte first.
pub open spec fn le_store(mem: Seq<u8>, addr: int, n: nat, v: int) -> Seq<u8>
    decreases n,
{
    if n == 0 {
        mem
    } else {
        le_store(mem.update(addr, (v % 256) as u8), addr + 1, (n - 1) as nat, v / 256)
    }
}

/// Whether the `n` bytes from `addr` on all lie within the memory.
pub open spec fn in_bounds(mem: Seq<u8>, addr: int, n: nat) -> bool {
    0 <= addr && addr + n <= mem.len()
}

/// What a load of `n` bytes at `addr` gives.
pub open spec fn load_spec(mem: Seq<u8>, addr: int, n: nat) -> Result<int, AppErrors> {
    if in_bounds(mem, addr, n) {
        Ok(le_load(mem, addr, n))
    } else {
        Err(AppErrors::OutOfBoundsPointer)
    }
}

/// Whether an access of `n` bytes at `addr` is let through, and the fault
/// that it meets where it is not.
pub open spec fn store_result(mem: Seq<u8>, addr: int, n: nat) -> Result<(), AppErrors> {
    if in_bounds(mem, addr, n) {
        Ok(())
    } else {
        Err(AppErrors::OutOfBoundsPointer)
    }
}

/// The memory after a store of `n` bytes at `addr` is asked for: unchanged
/// where the access does not lie within it.
pub open spec fn store_spec(mem: Seq<u8>, addr: int, n: nat, v: int) -> Seq<u8> {
    if in_bounds(mem, addr, n) {
        le_store(mem, addr, n, v)
    } else {
        mem
    }
}

/// The memory: its bytes, the first at address 0.
pub struct SystemMemory {
    pub data: Vec<u8>,
}

impl View for SystemMemory {
    type V = Seq<u8>;

    open spec fn view(&self) -> Seq<u8> {
        self.data@
    }
}

/// The bytes of `v`, by shifting and by dividing.
proof fn lemma_bytes_of(v: u64)
    by (bit_vector)
    ensures
        (v & 0xff) == v % 256,
        ((v >> 8) & 0xff) == (v / 256) % 256,
        ((v >> 16) & 0xff) == ((v / 256) / 256) % 256,
        ((v >> 24) & 0xff) == (((v / 256) / 256) / 256) % 256,
        ((v >> 32) & 0xff) == ((((v / 256) / 256) / 256) / 256) % 256,
        ((v >> 40) & 0xff) == (((((v / 256) / 256) / 256) / 256) / 256) % 256,
        ((v >> 48) & 0xff) == ((((((v / 256) / 256) / 256) / 256) / 256) / 256) % 256,
        ((v >> 56) & 0xff) == (((((((v / 256) / 256) / 256) / 256) / 256) / 256) / 256) % 256,
{
}

/// A 64-bit value that was stored is the value that a 64-bit load at the
/// same address gives back, whatever its top bit.
pub proof fn lemma_store64_load64_round_trip(mem: Seq<u8>, addr: int, value: u64)
    requires
        in_bounds(mem, addr, 8),
    ensures
        in_bounds(store_spec(mem, addr, 8, value as int), addr, 8),
        load_spec(store_spec(mem, addr, 8, value as int), addr, 8) == Ok::<int, AppErrors>(
            value as int,
        ),
{
    reveal_with_fuel(le_load, 9);
    reveal_with_fuel(le_store, 9);
}

/// What was stored with some width is what a load of that width at the
/// same address gives back: the value modulo 2^8, 2^16, 2^32 or 2^64.
pub proof fn lemma_store_load_round_trip(mem: Seq<u8>, addr: int, size: MemoryOpSize, value: u64)
    requires
        in_bounds(mem, addr, size.bytes()),
    ensures
        load_spec(store_spec(mem, addr, size.bytes(), value as int), addr, size.bytes()) == Ok::<
            int,
            AppErrors,
        >(
            match size {
                MemoryOpSize::B8 => value as int % 0x100,
                MemoryOpSize::B16 => value as int % 0x1_0000,
                MemoryOpSize::B32 => value as int % 0x1_0000_0000,
                MemoryOpSize::B64 => value as int,
            },
        ),
{
    reveal_with_fuel(le_load, 9);
    reveal_with_fuel(le_store, 9);
}

/// A store changes neither the size of the memory nor any byte outside
/// the bytes that it writes.
pub proof fn lemma_store_frame(mem: Seq<u8>, addr: int, n: nat, v: int)
    requires
        n <= 8,
    ensures
        store_spec(mem, addr, n, v).len() == mem.len(),
        forall|i: int|
            0 <= i < mem.len() && !(addr <= i < addr + n) ==> #[trigger] store_spec(
                mem,
                addr,
                n,
                v,
            )[i] == mem[i],
{
    reveal_with_fuel(le_store, 9);
}

impl SystemMemory {
    /// A memory of `size_bytes` bytes that begins with the program image
    /// and is zero after it.
    pub fn new(size_bytes: u64, initial_progam_code: Vec<u8>) -> (m: Self)
        requires
            size_bytes <= usize::MAX,
            initial_progam_code@.len() <= size_bytes,
        ensures
            m@.len() == size_bytes,
            forall|i: int| 0 <= i < initial_progam_code@.len() ==> m@[i] == initial_progam_code@[i],
            forall|i: int| initial_progam_code@.len() <= i < size_bytes ==> m@[i] == 0u8,
    {
        let mut data: Vec<u8> = vec![0u8; size_bytes as usize];
        let n: usize = initial_progam_code.len();
        let mut i: usize = 0;
        while i < n
            invariant
                n == initial_progam_code@.len(),
                n <= size_bytes,
                i <= n,
                data@.len() == size_bytes,
                forall|j: int| 0 <= j < i ==> data@[j] == initial_progam_code@[j],
                forall|j: int| i <= j < size_bytes ==> data@[j] == 0u8,
            decreases n - i,
        {
            data.set(i, initial_progam_code[i]);
            i += 1;
        }
        Self { data }
    }

    /// Reads `size` bytes at `addr`, zero-extended to 64 bits.
    pub fn load(&self, addr: u64, size: MemoryOpSize) -> (r: Result<u64, AppErrors>)
        ensures
            match load_spec(self@, addr as int, size.bytes()) {
                Ok(v) => r == Ok::<u64, AppErrors>(v as u64) && r->Ok_0 as int == v,
                Err(e) => r == Err::<u64, AppErrors>(e),
            },
    {
        match size {
            MemoryOpSize::B8 => match self.load8(addr) {
                Ok(v) => Ok(v as u64),
                Err(e) => Err(e),
            },
            MemoryOpSize::B16 => match self.load16(addr) {
                Ok(v) => Ok(v as u64),
                Err(e) => Err(e),
            },
            MemoryOpSize::B32 => match self.load32(addr) {
                Ok(v) => Ok(v as u64),
                Err(e) => Err(e),
            },
            MemoryOpSize::B64 => self.load64(addr),
        }
    }

    /// Writes the low `size` bytes of `value` at `addr`, or nothing where
    /// the access does not lie within the memory.
    pub fn store(&mut self, addr: u64, size: MemoryOpSize, value: u64) -> (r: Result<
        (),
        AppErrors,
    >)
        ensures
            final(self)@ == store_spec(old(self)@, addr as int, size.bytes(), value as int),
            r == store_result(old(self)@, addr as int, size.bytes()),
    {
        match self.validate_mem_address(addr, size) {
            Ok(()) => {
                match size {
                    MemoryOpSize::B8 => self.store8(addr, value),
                    MemoryOpSize::B16 => self.store16(addr, value),
                    MemoryOpSize::B32 => self.store32(addr, value),
                    MemoryOpSize::B64 => self.store64(addr, value),
                }
                Ok(())
            },
            Err(e) => Err(e),
        }
    }

    /// The position in the backing store of an address that lies within it.
    fn index_of(&self, addr: u64) -> (index: usize)
        requires
            addr < self@.len(),
        ensures
            index == addr,
            self@.len() <= usize::MAX,
    {
        let len: usize = self.data.len();
        addr as usize
    }

    /// Lets an access through where all of its bytes lie within the memory.
    fn validate_mem_address(&self, addr: u64, access_size: MemoryOpSize) -> (r: Result<
        (),
        AppErrors,
    >)
        ensures
            r == store_result(self@, addr as int, access_size.bytes()),
    {
        let address_offset: u64 = match access_size {
            MemoryOpSize::B8 => 0,
            MemoryOpSize::B16 => 1,
            MemoryOpSize::B32 => 3,
            MemoryOpSize::B64 => 7,
        };
        let len: u64 = self.data.len() as u64;
        if addr <= u64::MAX - address_offset && addr + address_offset < len {
            Ok(())
        } else {
            Err(AppErrors::OutOfBoundsPointer)
        }
    }

    /// Reads the byte at `addr`.
    pub fn load8(&self, addr: u64) -> (r: Result<u8, AppErrors>)
        ensures
            match load_spec(self@, addr as int, 1) {
                Ok(v) => r == Ok::<u8, AppErrors>(v as u8) && r->Ok_0 as int == v,
                Err(e) => r == Err::<u8, AppErrors>(e),
            },
    {
        match self.validate_mem_address(addr, MemoryOpSize::B8) {
            Ok(()) => {
                let index: usize = self.index_of(addr);
                proof {
                    reveal_with_fuel(le_load, 2);
                }
                Ok(self.data[index])
            },
            Err(err) => Err(err),
        }
    }

    /// Reads the two bytes from `addr` on.
    pub fn load16(&self, addr: u64) -> (r: Result<u16, AppErrors>)
        ensures
            match load_spec(self@, addr as int, 2) {
                Ok(v) => r == Ok::<u16, AppErrors>(v as u16) && r->Ok_0 as int == v,
                Err(e) => r == Err::<u16, AppErrors>(e),
            },
    {
        match self.validate_mem_address(addr, MemoryOpSize::B16) {
            Ok(()) => {
                let index: usize = self.index_of(addr);
                let b0: u8 = self.data[index];
                let b1: u8 = self.data[index + 1];
                proof {
                    reveal_with_fuel(le_load, 3);
                    assert(((b0 as u16) | ((b1 as u16) << 8)) as int == b0 as int + 256 * (b1 as int))
                        by (bit_vector);
                }
                Ok((b0 as u16) | ((b1 as u16) << 8))
            },
            Err(err) => Err(err),
        }
    }

    /// Reads the four bytes from `addr` on.
    pub fn load32(&self, addr: u64) -> (r: Result<u32, AppErrors>)
        ensures
            match load_spec(self@, addr as int, 4) {
                Ok(v) => r == Ok::<u32, AppErrors>(v as u32) && r->Ok_0 as int == v,
                Err(e) => r == Err::<u32, AppErrors>(e),
            },
    {
        match self.validate_mem_address(addr, MemoryOpSize::B32) {
            Ok(()) => {
                let index: usize = self.index_of(addr);
                let b0: u8 = self.data[index];
                let b1: u8 = self.data[index + 1];
                let b2: u8 = self.data[index + 2];
                let b3: u8 = self.data[index + 3];
                proof {
                    reveal_with_fuel(le_load, 5);
                    assert(((b0 as u32) | ((b1 as u32) << 8) | ((b2 as u32) << 16) | ((b3 as u32)
                        << 24)) as int == b0 as int + 256 * (b1 as int + 256 * (b2 as int + 256 * (
                    b3 as int)))) by (bit_vector);
                }
                Ok((b0 as u32) | ((b1 as u32) << 8) | ((b2 as u32) << 16) | ((b3 as u32) << 24))
            },
            Err(err) => Err(err),
        }
    }

    /// Reads the eight bytes from `addr` on.
    pub fn load64(&self, addr: u64) -> (r: Result<u64, AppErrors>)
        ensures
            match load_spec(self@, addr as int, 8) {
                Ok(v) => r == Ok::<u64, AppErrors>(v as u64) && r->Ok_0 as int == v,
                Err(e) => r == Err::<u64, AppErrors>(e),
            },
    {
        match self.validate_mem_address(addr, MemoryOpSize::B64) {
            Ok(()) => {
                let index: usize = self.index_of(addr);
                let b0: u8 = self.data[index];
                let b1: u8 = self.data[index + 1];
                let b2: u8 = self.data[index + 2];
                let b3: u8 = self.data[index + 3];
                let b4: u8 = self.data[index + 4];
                let b5: u8 = self.data[index + 5];
                let b6: u8 = self.data[index + 6];
                let b7: u8 = self.data[index + 7];
                proof {
                    reveal_with_fuel(le_load, 9);
                    assert(((b0 as u64) | ((b1 as u64) << 8) | ((b2 as u64) << 16) | ((b3 as u64)
                        << 24) | ((b4 as u64) << 32) | ((b5 as u64) << 40) | ((b6 as u64) << 48) | ((
                    b7 as u64) << 56)) as int == b0 as int + 256 * (b1 as int + 256 * (b2 as int + 256
                        * (b3 as int + 256 * (b4 as int + 256 * (b5 as int + 256 * (b6 as int + 256 * (
                    b7 as int)))))))) by (bit_vector);
                }
                Ok(
                    (b0 as u64) | ((b1 as u64) << 8) | ((b2 as u64) << 16) | ((b3 as u64) << 24) | ((
                    b4 as u64) << 32) | ((b5 as u64) << 40) | ((b6 as u64) << 48) | ((b7 as u64)
                        << 56),
                )
            },
            Err(err) => Err(err),
        }
    }

    /// Writes the low byte of `value` at `addr`.
    fn store8(&mut self, addr: u64, value: u64)
        requires
            in_bounds(old(self)@, addr as int, 1),
        ensures
            final(self)@ == le_store(old(self)@, addr as int, 1, value as int),
    {
        let index: usize = self.index_of(addr);
        proof {
            lemma_bytes_of(value);
            reveal_with_fuel(le_store, 2);
        }
        self.data.set(index, (value & 0xff) as u8);
    }

    /// Writes the low two bytes of `value` from `addr` on.
    fn store16(&mut self, addr: u64, value: u64)
        requires
            in_bounds(old(self)@, addr as int, 2),
        ensures
            final(self)@ == le_store(old(self)@, addr as int, 2, value as int),
    {
        let index: usize = self.index_of(addr);
        proof {
            lemma_bytes_of(value);
            reveal_with_fuel(le_store, 3);
        }
        self.data.set(index, (value & 0xff) as u8);
        self.data.set(index + 1, ((value >> 8) & 0xff) as u8);
    }

    /// Writes the low four bytes of `value` from `addr` on.
    fn store32(&mut self, addr: u64, value: u64)
        requires
            in_bounds(old(self)@, addr as int, 4),
        ensures
            final(self)@ == le_store(old(self)@, addr as int, 4, value as int),
    {
        let index: usize = self.index_of(addr);
        proof {
            lemma_bytes_of(value);
            reveal_with_fuel(le_store, 5);
        }
        self.data.set(index, (value & 0xff) as u8);
        self.data.set(index + 1, ((value >> 8) & 0xff) as u8);
        self.data.set(index + 2, ((value >> 16) & 0xff) as u8);
        self.data.set(index + 3, ((value >> 24) & 0xff) as u8);
    }

    /// Writes the eight bytes of `value` from `addr` on.
    fn store64(&mut self, addr: u64, value: u64)
        requires
            in_bounds(old(self)@, addr as int, 8),
        ensures
            final(self)@ == le_store(old(self)@, addr as int, 8, value as int),
    {
        let index: usize = self.index_of(addr);
        proof {
            lemma_bytes_of(value);
            reveal_with_fuel(le_store, 9);
        }
        self.data.set(index, (value & 0xff) as u8);
        self.data.set(index + 1, ((value >> 8) & 0xff) as u8);
        self.data.set(index + 2, ((value >> 16) & 0xff) as u8);
        self.data.set(index + 3, ((value >> 24) & 0xff) as u8);
        self.data.set(index + 4, ((value >> 32) & 0xff) as u8);
        self.data.set(index + 5, ((value >> 40) & 0xff) as u8);
        self.data.set(index + 6, ((value >> 48) & 0xff) as u8);
        self.data.set(index + 7, ((value >> 56) & 0xff) as u8);
    }
}

} // verus!
