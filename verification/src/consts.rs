//! The machine's fixed address map.
use vstd::prelude::*;

verus! {

/// The machine address at which the memory begins.
pub const DRAM_BASE_ADDR: u64 = 0x8000_0000;

/// The default size of the memory, in bytes (128 MiB).
pub const DRAM_SIZE: u64 = 0x800_0000;

} // verus!
