use emulator::consts::DRAM_BASE_ADDR;
use emulator::error::AppErrors;
use emulator::memory::{MemoryOpSize, SystemMemory};
use emulator::system_bus::SystemBus;

#[test]
fn new_memory_holds_the_image_then_zeros() {
    let m = SystemMemory::new(8, vec![1, 2, 3]);
    assert_eq!(m.data, vec![1, 2, 3, 0, 0, 0, 0, 0]);
    let empty = SystemMemory::new(0, vec![]);
    assert_eq!(empty.data.len(), 0);
    let full = SystemMemory::new(2, vec![9, 8]);
    assert_eq!(full.data, vec![9, 8]);
}

#[test]
fn loads_assemble_little_endian() {
    let m = SystemMemory::new(16, vec![0x11, 0x22, 0x33, 0x44, 0x55, 0x66, 0x77, 0x88, 0x99]);
    assert_eq!(m.load8(1), Ok(0x22));
    assert_eq!(m.load16(1), Ok(0x3322));
    assert_eq!(m.load32(1), Ok(0x5544_3322));
    assert_eq!(m.load64(1), Ok(0x9988_7766_5544_3322));
    assert_eq!(m.load(1, MemoryOpSize::B8), Ok(0x22));
    assert_eq!(m.load(1, MemoryOpSize::B16), Ok(0x3322));
    assert_eq!(m.load(1, MemoryOpSize::B32), Ok(0x5544_3322));
    assert_eq!(m.load(1, MemoryOpSize::B64), Ok(0x9988_7766_5544_3322));
}

#[test]
fn stores_write_the_low_bytes_little_endian() {
    let mut m = SystemMemory::new(12, vec![]);
    assert_eq!(m.store(0, MemoryOpSize::B8, 0x1122_3344_5566_7788), Ok(()));
    assert_eq!(m.data[..2], [0x88, 0]);
    assert_eq!(m.store(2, MemoryOpSize::B16, 0x1122_3344_5566_7788), Ok(()));
    assert_eq!(m.data[2..5], [0x88, 0x77, 0]);
    assert_eq!(m.store(4, MemoryOpSize::B32, 0x1122_3344_5566_7788), Ok(()));
    assert_eq!(m.data[4..9], [0x88, 0x77, 0x66, 0x55, 0]);
    assert_eq!(m.store(3, MemoryOpSize::B64, 0x1122_3344_5566_7788), Ok(()));
    assert_eq!(
        m.data,
        vec![0x88, 0, 0x88, 0x88, 0x77, 0x66, 0x55, 0x44, 0x33, 0x22, 0x11, 0]
    );
}

#[test]
fn store64_then_load64_gives_the_value_back() {
    let mut m = SystemMemory::new(64, vec![]);
    for value in [
        0u64,
        1,
        0x8000_0000_0000_0000,
        0xFFFF_FFFF_FFFF_FFFF,
        0x0123_4567_89AB_CDEF,
        0xFEDC_BA98_7654_3210,
        0x0000_0000_8000_0000,
    ] {
        for addr in [0u64, 1, 7, 56] {
            assert_eq!(m.store(addr, MemoryOpSize::B64, value), Ok(()));
            assert_eq!(m.load64(addr), Ok(value));
            assert_eq!(m.load(addr, MemoryOpSize::B64), Ok(value));
        }
    }
}

#[test]
fn narrow_store_then_load_gives_the_low_bytes_back() {
    let mut m = SystemMemory::new(16, vec![0xff; 16]);
    assert_eq!(m.store(4, MemoryOpSize::B32, 0xAABB_CCDD_8000_0001), Ok(()));
    assert_eq!(m.load32(4), Ok(0x8000_0001));
    assert_eq!(m.load8(3), Ok(0xff));
    assert_eq!(m.load8(8), Ok(0xff));
    assert_eq!(m.store(4, MemoryOpSize::B16, 0xAABB_CCDD_8000_9002), Ok(()));
    assert_eq!(m.load16(4), Ok(0x9002));
    assert_eq!(m.load32(4), Ok(0x8000_9002));
    assert_eq!(m.store(4, MemoryOpSize::B8, 0x1FF), Ok(()));
    assert_eq!(m.load64(0), Ok(0x8000_90FF_FFFF_FFFF));
}

#[test]
fn load8_at_or_beyond_the_extent_is_a_fault() {
    let m = SystemMemory::new(16, vec![7; 16]);
    assert_eq!(m.load8(15), Ok(7));
    assert_eq!(m.load8(16), Err(AppErrors::OutOfBoundsPointer));
    assert_eq!(m.load8(17), Err(AppErrors::OutOfBoundsPointer));
    assert_eq!(m.load8(u64::MAX), Err(AppErrors::OutOfBoundsPointer));
    let empty = SystemMemory::new(0, vec![]);
    assert_eq!(empty.load8(0), Err(AppErrors::OutOfBoundsPointer));
}

#[test]
fn wide_loads_must_lie_within_the_memory() {
    let m = SystemMemory::new(16, vec![7; 16]);
    assert_eq!(m.load16(14), Ok(0x0707));
    assert_eq!(m.load16(15), Err(AppErrors::OutOfBoundsPointer));
    assert_eq!(m.load32(12), Ok(0x0707_0707));
    assert_eq!(m.load32(13), Err(AppErrors::OutOfBoundsPointer));
    assert_eq!(m.load32(14), Err(AppErrors::OutOfBoundsPointer));
    assert_eq!(m.load64(8), Ok(0x0707_0707_0707_0707));
    assert_eq!(m.load64(9), Err(AppErrors::OutOfBoundsPointer));
    assert_eq!(m.load64(12), Err(AppErrors::OutOfBoundsPointer));
    assert_eq!(m.load64(u64::MAX), Err(AppErrors::OutOfBoundsPointer));
    assert_eq!(m.load64(u64::MAX - 6), Err(AppErrors::OutOfBoundsPointer));
    assert_eq!(m.load(13, MemoryOpSize::B32), Err(AppErrors::OutOfBoundsPointer));
    assert_eq!(m.load(9, MemoryOpSize::B64), Err(AppErrors::OutOfBoundsPointer));
}

#[test]
fn store_out_of_bounds_writes_nothing() {
    let mut m = SystemMemory::new(8, vec![1, 2, 3, 4, 5, 6, 7, 8]);
    assert_eq!(m.store(1, MemoryOpSize::B64, 0), Err(AppErrors::OutOfBoundsPointer));
    assert_eq!(m.store(5, MemoryOpSize::B32, 0), Err(AppErrors::OutOfBoundsPointer));
    assert_eq!(m.store(7, MemoryOpSize::B16, 0), Err(AppErrors::OutOfBoundsPointer));
    assert_eq!(m.store(8, MemoryOpSize::B8, 0), Err(AppErrors::OutOfBoundsPointer));
    assert_eq!(m.store(u64::MAX, MemoryOpSize::B64, 0), Err(AppErrors::OutOfBoundsPointer));
    assert_eq!(m.data, vec![1, 2, 3, 4, 5, 6, 7, 8]);
}

#[test]
fn bus_takes_off_the_base_address() {
    let mut bus = SystemBus::new(16, vec![0x11, 0x22, 0x33, 0x44, 0x55, 0x66, 0x77, 0x88]);
    assert_eq!(bus.load8(DRAM_BASE_ADDR), Ok(0x11));
    assert_eq!(bus.load16(DRAM_BASE_ADDR + 1), Ok(0x3322));
    assert_eq!(bus.load32(DRAM_BASE_ADDR), Ok(0x4433_2211));
    assert_eq!(bus.load64(DRAM_BASE_ADDR), Ok(0x8877_6655_4433_2211));
    assert_eq!(bus.load(DRAM_BASE_ADDR + 4, MemoryOpSize::B32), Ok(0x8877_6655));
    assert_eq!(bus.store(DRAM_BASE_ADDR + 8, MemoryOpSize::B64, 0x8000_0000_0000_0001), Ok(()));
    assert_eq!(bus.load64(DRAM_BASE_ADDR + 8), Ok(0x8000_0000_0000_0001));
}

#[test]
fn bus_address_below_the_base_is_not_found() {
    let mut bus = SystemBus::new(16, vec![]);
    assert_eq!(bus.load8(0), Err(AppErrors::AddressNotFound));
    assert_eq!(bus.load16(DRAM_BASE_ADDR - 1), Err(AppErrors::AddressNotFound));
    assert_eq!(bus.load32(0x1000), Err(AppErrors::AddressNotFound));
    assert_eq!(bus.load64(DRAM_BASE_ADDR - 8), Err(AppErrors::AddressNotFound));
    assert_eq!(bus.load(0, MemoryOpSize::B8), Err(AppErrors::AddressNotFound));
    assert_eq!(bus.store(0, MemoryOpSize::B8, 1), Err(AppErrors::AddressNotFound));
    assert_eq!(bus.load8(DRAM_BASE_ADDR + 16), Err(AppErrors::OutOfBoundsPointer));
    assert_eq!(
        bus.store(DRAM_BASE_ADDR + 9, MemoryOpSize::B64, 1),
        Err(AppErrors::OutOfBoundsPointer)
    );
    assert_eq!(bus.load64(DRAM_BASE_ADDR + 8), Ok(0));
}
