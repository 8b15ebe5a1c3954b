//! The addressable space: cursor-driven fetch, random access, the
//! descending stack, image loading, and the register pairs.

use gbcore::CoreError;
use gbcore::memory::Memory;
use gbcore::registers::RegisterPair;

#[test]
fn fetch_advances_pc() {
    let mut m = Memory::new(0x0100, 0);
    m.write_byte(0x0100, 0xAB).unwrap();
    m.write_byte(0x0101, 0xCD).unwrap();
    assert_eq!(m.fetch_byte(), Ok(0xAB));
    assert_eq!(m.program_counter, 0x0101);
    assert_eq!(m.fetch_byte(), Ok(0xCD));
    assert_eq!(m.program_counter, 0x0102);
}

#[test]
fn fetch_two_bytes_is_little_endian() {
    let mut m = Memory::new(0x0200, 0);
    m.write_byte(0x0200, 0xEF).unwrap();
    m.write_byte(0x0201, 0xBE).unwrap();
    assert_eq!(m.fetch_two_bytes(), Ok(0xBEEF));
    assert_eq!(m.program_counter, 0x0202);
}

#[test]
fn fetch_at_last_address_overflows() {
    let mut m = Memory::new(0xFFFF, 0);
    assert_eq!(m.fetch_byte(), Err(CoreError::CounterOverflow));
    assert_eq!(m.program_counter, 0xFFFF);
}

#[test]
fn word_access_is_little_endian() {
    let mut m = Memory::new(0, 0);
    m.write_two_bytes(0x1000, 0xBEEF).unwrap();
    assert_eq!(m.read_byte(0x1000), Ok(0xEF));
    assert_eq!(m.read_byte(0x1001), Ok(0xBE));
    assert_eq!(m.read_two_bytes(0x1000), Ok(0xBEEF));
}

#[test]
fn word_access_past_end_is_out_of_bounds() {
    let mut m = Memory::new(0, 0);
    assert_eq!(m.read_two_bytes(0xFFFF), Err(CoreError::OutOfBounds));
    assert_eq!(m.write_two_bytes(0xFFFF, 0x1234), Err(CoreError::OutOfBounds));
    assert_eq!(m.read_byte(0xFFFF), Ok(0));
}

#[test]
fn stack_round_trip() {
    let mut m = Memory::new(0, 0xFFFE);
    m.push_stack(0xBEEF).unwrap();
    assert_eq!(m.stack_pointer, 0xFFFC);
    assert_eq!(m.read_byte(0xFFFC), Ok(0xEF));
    assert_eq!(m.read_byte(0xFFFD), Ok(0xBE));
    assert_eq!(m.pop_stack(), Ok(0xBEEF));
    assert_eq!(m.stack_pointer, 0xFFFE);
}

#[test]
fn push_without_headroom_overflows() {
    let mut m = Memory::new(0, 1);
    assert_eq!(m.push_stack(0x1234), Err(CoreError::StackOverflow));
    assert_eq!(m.stack_pointer, 1);
}

#[test]
fn pop_at_top_overflows() {
    let mut m = Memory::new(0, 0xFFFE);
    assert_eq!(m.pop_stack(), Err(CoreError::StackOverflow));
    assert_eq!(m.stack_pointer, 0xFFFE);
}

#[test]
fn load_memory_copies_and_resets_pc() {
    let mut m = Memory::new(0, 0);
    m.load_memory(&[1, 2, 3], 0x8000).unwrap();
    assert_eq!(m.program_counter, 0x8000);
    assert_eq!(m.read_byte(0x8000), Ok(1));
    assert_eq!(m.read_byte(0x8001), Ok(2));
    assert_eq!(m.read_byte(0x8002), Ok(3));
    assert_eq!(m.read_byte(0x8003), Ok(0));
}

#[test]
fn load_memory_rejects_oversized_image() {
    let mut m = Memory::new(0x0042, 0);
    let image = vec![0u8; 0x8001];
    assert_eq!(m.load_memory(&image, 0x8000), Err(CoreError::CapacityExceeded));
    assert_eq!(m.program_counter, 0x0042);
    let exact = vec![0u8; 0x8000];
    assert_eq!(m.load_memory(&exact, 0x8000), Ok(()));
}

#[test]
fn register_pair_round_trip() {
    let mut p = RegisterPair::new();
    assert_eq!(p.get_pair(), 0);
    p.set_pair(0xABCD);
    assert_eq!(p.high, 0xAB);
    assert_eq!(p.low, 0xCD);
    assert_eq!(p.get_pair(), 0xABCD);
}

#[test]
fn register_pair_wraps() {
    let mut p = RegisterPair::new();
    p.set_pair(0xFFFF);
    p.inc_pair();
    assert_eq!(p.get_pair(), 0);
    p.dec_pair();
    assert_eq!(p.get_pair(), 0xFFFF);
}

#[test]
fn register_lanes_wrap() {
    let mut p = RegisterPair::new();
    p.high = 0xFF;
    p.inc_high();
    assert_eq!(p.high, 0);
    p.dec_high();
    assert_eq!(p.high, 0xFF);
    p.low = 0xFF;
    p.inc_low();
    assert_eq!(p.low, 0);
    p.dec_low();
    assert_eq!(p.low, 0xFF);
}
