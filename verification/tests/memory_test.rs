use m6502rs::memory::{Mem, MAX_MEM};

#[test]
fn max_mem_is_64_kib() {
    assert_eq!(MAX_MEM, 65536);
}

#[test]
fn new_memory_is_all_zero() {
    let mem = Mem::new();
    for i in 0..MAX_MEM {
        assert_eq!(mem.read(i), 0);
    }
}

#[test]
fn write_changes_one_byte_only() {
    let mut mem = Mem::new();
    mem.write(0x1234, 0x7F);
    for i in 0..MAX_MEM {
        let expected = if i == 0x1234 { 0x7F } else { 0 };
        assert_eq!(mem.read(i), expected);
    }
}

#[test]
fn first_and_last_address_hold_bytes() {
    let mut mem = Mem::new();
    mem.write(0, 0x11);
    mem.write(MAX_MEM - 1, 0x22);
    assert_eq!(mem.read(0), 0x11);
    assert_eq!(mem.read(0xFFFF), 0x22);
}

#[test]
fn later_write_wins() {
    let mut mem = Mem::new();
    mem.write(77, 1);
    mem.write(77, 2);
    assert_eq!(mem.read(77), 2);
}

#[test]
fn write_word_is_little_endian() {
    let mut mem = Mem::new();
    let mut cycles = 100;
    mem.write_word(0x1234, 0x0200, &mut cycles);
    assert_eq!(mem.read(0x0200), 0x34);
    assert_eq!(mem.read(0x0201), 0x12);
    assert_eq!(mem.read(0x01FF), 0);
    assert_eq!(mem.read(0x0202), 0);
    assert_eq!(cycles, 98);
}

#[test]
fn write_word_at_the_last_two_addresses() {
    let mut mem = Mem::new();
    let mut cycles = 2;
    mem.write_word(0xA55A, 0xFFFE, &mut cycles);
    assert_eq!(mem.read(0xFFFE), 0x5A);
    assert_eq!(mem.read(0xFFFF), 0xA5);
    assert_eq!(cycles, 0);
}

#[test]
fn write_word_extreme_values() {
    let mut mem = Mem::new();
    let mut cycles = 10;
    mem.write(10, 0xFF);
    mem.write(11, 0xFF);
    mem.write_word(0x0000, 10, &mut cycles);
    assert_eq!(mem.read(10), 0x00);
    assert_eq!(mem.read(11), 0x00);
    mem.write_word(0xFFFF, 10, &mut cycles);
    assert_eq!(mem.read(10), 0xFF);
    assert_eq!(mem.read(11), 0xFF);
    mem.write_word(0x00FF, 10, &mut cycles);
    assert_eq!(mem.read(10), 0xFF);
    assert_eq!(mem.read(11), 0x00);
    mem.write_word(0xFF00, 10, &mut cycles);
    assert_eq!(mem.read(10), 0x00);
    assert_eq!(mem.read(11), 0xFF);
    assert_eq!(cycles, 2);
}

#[test]
fn write_word_budget_saturates_at_zero() {
    let mut mem = Mem::new();
    let mut cycles = 1;
    mem.write_word(0xBEEF, 1000, &mut cycles);
    assert_eq!(cycles, 0);
    assert_eq!(mem.read(1000), 0xEF);
    assert_eq!(mem.read(1001), 0xBE);

    let mut cycles = 0;
    mem.write_word(0xCAFE, 2000, &mut cycles);
    assert_eq!(cycles, 0);
    assert_eq!(mem.read(2000), 0xFE);
    assert_eq!(mem.read(2001), 0xCA);
}

#[test]
fn initialize_twice_gives_the_same_memory() {
    let mut mem = Mem::new();
    mem.write(5, 5);
    mem.initialize();
    mem.initialize();
    for i in 0..MAX_MEM {
        assert_eq!(mem.read(i), 0);
    }
}
