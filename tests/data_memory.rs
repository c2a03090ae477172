use riscv_5stage_simulator::memory::data::DataMemory;
use riscv_5stage_simulator::memory::MemError;

#[test]
fn common_constructor() {
    DataMemory::new(1024);
}

#[test]
fn byte1() {
    let mut mem = DataMemory::new(2);
    let mut addr = 0x0;
    let mut size = 1;

    assert_eq!(mem.read(addr, size), Ok(0));
    mem.write(addr, size, 0xff).unwrap();
    addr = 0x0;
    size = 4;
    assert_eq!(mem.read(addr, size), Ok(0xff));
}

#[test]
fn byte2() {
    let mut mem = DataMemory::new(2);
    let mut addr = 0x1;
    let mut size = 1;

    assert_eq!(mem.read(addr, size), Ok(0));
    mem.write(addr, size, 0xff).unwrap();
    addr = 0x0;
    size = 4;
    assert_eq!(mem.read(addr, size), Ok(0xff00));
}

#[test]
fn byte3() {
    let mut mem = DataMemory::new(2);
    let mut addr = 0x2;
    let mut size = 1;

    assert_eq!(mem.read(addr, size), Ok(0));
    mem.write(addr, size, 0xff).unwrap();
    addr = 0x0;
    size = 4;
    assert_eq!(mem.read(addr, size), Ok(0xff0000));
}

#[test]
fn byte4() {
    let mut mem = DataMemory::new(2);
    let mut addr = 0x3;
    let mut size = 1;

    assert_eq!(mem.read(addr, size), Ok(0));
    mem.write(addr, size, 0xff).unwrap();
    addr = 0x0;
    size = 4;
    assert_eq!(mem.read(addr, size), Ok(0xff000000));
}

#[test]
fn lower_halfword() {
    let mut mem = DataMemory::new(2);
    let addr = 0x4;
    let size = 2;

    assert_eq!(mem.read(addr, size), Ok(0));
    mem.write(addr, size, 0xf0f0).unwrap();
    assert_eq!(mem.read(addr, size), Ok(0xf0f0));
}

#[test]
fn upper_halfword() {
    let mut mem = DataMemory::new(2);
    let addr = 0x6;
    let size = 2;

    assert_eq!(mem.read(addr, size), Ok(0));
    mem.write(addr, size, 0xf0f0).unwrap();
    assert_eq!(mem.read(addr, size), Ok(0xf0f0));
}

#[test]
fn full_word() {
    let mut mem = DataMemory::new(2);
    let addr = 0x4;
    let size = 4;

    assert_eq!(mem.read(addr, size), Ok(0));
    mem.write(addr, size, 0xf0f0f0f0).unwrap();
    assert_eq!(mem.read(addr, size), Ok(0xf0f0f0f0));
}

#[test]
fn unaligned_halfword_is_refused() {
    let mem = DataMemory::new(2);
    // Reading addrs 0x3 and 0x4 would cross a word boundary
    assert_eq!(mem.read(0x3, 2), Err(MemError::Unaligned(0x3)));
}

#[test]
fn unaligned_word_is_refused() {
    let mem = DataMemory::new(2);
    // Reading addrs 0x2 through 0x5 would cross a word boundary
    assert_eq!(mem.read(0x2, 4), Err(MemError::Unaligned(0x2)));
}

#[test]
fn read_outside_range_is_refused() {
    // A 2-word memory space has valid addresses 0x0 through 0x7
    let mem = DataMemory::new(2);
    assert_eq!(mem.read(0x8, 1), Err(MemError::OutOfRange(0x8)));
}

#[test]
fn write_outside_range_is_refused() {
    let mut mem = DataMemory::new(2);
    assert_eq!(mem.write(0x8, 1, 0x1), Err(MemError::OutOfRange(0x8)));
}

#[test]
fn invalid_size_is_refused() {
    let mut mem = DataMemory::new(2);
    assert_eq!(mem.read(0x0, 3), Err(MemError::InvalidSize(3)));
    assert_eq!(mem.write(0x0, 0, 1), Err(MemError::InvalidSize(0)));
}

#[test]
fn write_crossing_a_word_is_refused() {
    let mut mem = DataMemory::new(2);
    assert_eq!(mem.write(0x3, 2, 0xffff), Err(MemError::Unaligned(0x3)));
    assert_eq!(mem.read(0x0, 4), Ok(0));
    assert_eq!(mem.read(0x4, 4), Ok(0));
}

#[test]
fn write_keeps_other_bytes_and_masks_data() {
    let mut mem = DataMemory::new(2);
    mem.write(0x4, 4, 0x11223344).unwrap();
    // Only the low byte of the data is stored.
    mem.write(0x5, 1, 0xabcd).unwrap();
    assert_eq!(mem.read(0x4, 4), Ok(0x1122cd44));
    assert_eq!(mem.read(0x5, 1), Ok(0xcd));
    assert_eq!(mem.read(0x0, 4), Ok(0));
    // A halfword store must sit at an even address.
    assert_eq!(mem.write(0x1, 2, 0xbeef), Err(MemError::Unaligned(0x1)));
    assert_eq!(mem.read(0x4, 4), Ok(0x1122cd44));
}

#[test]
fn round_trip_every_aligned_access() {
    for &size in &[1usize, 2, 4] {
        let mut addr = 0;
        while addr < 8 {
            let mut mem = DataMemory::new(2);
            mem.write(0, 4, 0xa5a5a5a5).unwrap();
            mem.write(4, 4, 0x5a5a5a5a).unwrap();
            let before = [mem.read(0, 4).unwrap(), mem.read(4, 4).unwrap()];
            mem.write(addr, size, 0x12345678).unwrap();
            let mask: u32 = if size == 4 { 0xffffffff } else { (1u32 << (8 * size)) - 1 };
            assert_eq!(mem.read(addr, size), Ok(0x12345678 & mask));
            let other = if addr < 4 { 1 } else { 0 };
            assert_eq!(mem.read(4 * other, 4), Ok(before[other]));
            addr += size;
        }
    }
}

#[test]
fn misaligned_read_is_refused() {
    let mut mem = DataMemory::new(2);
    mem.write(0, 4, 0x44332211).unwrap();
    assert_eq!(mem.read(1, 2), Err(MemError::Unaligned(1)));
    assert_eq!(mem.read(2, 2), Ok(0x4433));
    assert_eq!(mem.read(3, 1), Ok(0x44));
}
