use m6502rs::cpu::{Halt, CPU};
use m6502rs::memory::{Mem, MAX_MEM};

#[test]
fn test_cpu_new() {
    let cpu = CPU::new();
    // All registers and flags start at zero.
    assert_eq!(cpu.get_pc(), 0);
    assert_eq!(cpu.get_sp(), 0);
    assert_eq!(cpu.get_a(), 0);
    assert_eq!(cpu.get_x(), 0);
    assert_eq!(cpu.get_y(), 0);
    assert_eq!(cpu.get_c(), 0);
    assert_eq!(cpu.get_z(), 0);
    assert_eq!(cpu.get_i(), 0);
    assert_eq!(cpu.get_d(), 0);
    assert_eq!(cpu.get_b(), 0);
    assert_eq!(cpu.get_v(), 0);
    assert_eq!(cpu.get_n(), 0);
}

#[test]
fn test_cpu_reset() {
    let mut cpu = CPU::new();
    let mut mem = Mem::new();
    // Fill the memory with a value other than zero to tell the difference.
    for i in 0..MAX_MEM {
        mem.write(i, 0xFF);
    }
    cpu.reset(&mut mem);
    assert_eq!(cpu.get_pc(), 0xFFFC);
    assert_eq!(cpu.get_sp(), 0x0100);
    assert_eq!(cpu.get_a(), 0);
    assert_eq!(cpu.get_x(), 0);
    assert_eq!(cpu.get_y(), 0);
    assert_eq!(cpu.get_i(), 1); // The interrupt flag is set.
    // And the memory is cleared.
    for i in 0..MAX_MEM {
        assert_eq!(mem.read(i), 0);
    }
}

#[test]
fn test_fetch_byte() {
    let mut cpu = CPU::new();
    let mut mem = Mem::new();
    cpu.set_pc(0);
    mem.write(0, 0xAB);
    let mut cycles = 5;
    let byte = cpu.fetch_byte(&mut cycles, &mem);
    assert_eq!(byte, 0xAB);
    assert_eq!(cpu.get_pc(), 1);
    assert_eq!(cycles, 4); // One cycle is spent.
}

#[test]
fn test_fetch_word() {
    let mut cpu = CPU::new();
    let mut mem = Mem::new();
    cpu.set_pc(0);
    // Two bytes that make up the word in little-endian order.
    mem.write(0, 0xCD); // Least significant byte.
    mem.write(1, 0xAB); // Most significant byte.
    let mut cycles = 10;
    let word = cpu.fetch_word(&mut cycles, &mem);
    assert_eq!(word, 0xABCD); // (0xAB << 8) | 0xCD
    assert_eq!(cpu.get_pc(), 2);
    assert_eq!(cycles, 8); // Two cycles are spent.
}

#[test]
fn test_read_byte() {
    let mut cpu = CPU::new();
    let mut mem = Mem::new();
    mem.write(0x42, 0x99);
    let mut cycles = 3;
    let byte = cpu.read_byte(&mut cycles, 0x42, &mem);
    assert_eq!(byte, 0x99);
    assert_eq!(cycles, 2); // One cycle is spent.
}

#[test]
fn test_lda_set_status() {
    let mut cpu = CPU::new();
    // Accumulator equal to zero.
    cpu.set_a(0);
    cpu.lda_set_status();
    assert_eq!(cpu.get_z(), 1);
    assert_eq!(cpu.get_n(), 0);

    // Accumulator not zero and without the sign bit.
    cpu.set_a(0x42);
    cpu.lda_set_status();
    assert_eq!(cpu.get_z(), 0);
    assert_eq!(cpu.get_n(), 0);

    // Accumulator with bit 7 (the sign) set.
    cpu.set_a(0x80);
    cpu.lda_set_status();
    assert_eq!(cpu.get_n(), 1);
    assert_eq!(cpu.get_z(), 0);
}

#[test]
fn test_execute_lda_immediate() {
    let mut cpu = CPU::new();
    let mut mem = Mem::new();
    // LDA immediate at address 0.
    cpu.set_pc(0);
    mem.write(0, CPU::INS_LDA_IM);
    mem.write(1, 0x55);
    let initial_cycles = 10;
    cpu.execute(initial_cycles, &mut mem);
    // 0x55 is loaded into the accumulator.
    assert_eq!(cpu.get_a(), 0x55);
    // For 0x55 both the zero and the negative flag are clear.
    assert_eq!(cpu.get_z(), 0);
    assert_eq!(cpu.get_n(), 0);
}

#[test]
fn test_execute_lda_zero_page() {
    let mut cpu = CPU::new();
    let mut mem = Mem::new();
    // LDA in zero-page mode.
    cpu.set_pc(0);
    mem.write(0, CPU::INS_LDA_ZP);
    mem.write(1, 0x10); // Zero-page address.
    mem.write(0x10, 0xAA);
    let initial_cycles = 10;
    cpu.execute(initial_cycles, &mut mem);
    assert_eq!(cpu.get_a(), 0xAA);
    // Bit 7 of 0xAA is set, so the negative flag is set.
    assert_eq!(cpu.get_z(), 0);
    assert_eq!(cpu.get_n(), 1);
}

#[test]
fn test_execute_jsr() {
    let mut cpu = CPU::new();
    let mut mem = Mem::new();
    // Reset puts pc at 0xFFFC and sp at 0x0100.
    cpu.reset(&mut mem);
    // JSR at the reset address.
    mem.write(0xFFFC, CPU::INS_JSR);
    // Jump target 0x1234, least significant byte first.
    mem.write(0xFFFD, 0x34); // Low byte
    mem.write(0xFFFE, 0x12); // High byte
    let cycles = 15; // Enough cycles to complete the instruction.
    let halt = cpu.execute(cycles, &mut mem);
    // The jump took the program counter to 0x1234. Nine cycles were left,
    // so the run went on there, fetched the zero byte that the memory
    // holds at 0x1234, and stopped just past it: zero is no opcode.
    assert_eq!(halt, Halt::UnhandledOpcode(0x00));
    assert_eq!(cpu.get_pc(), 0x1235);
    // The stack pointer has moved up by two, from 0x0100 to 0x0102.
    assert_eq!(cpu.get_sp(), 0x0102);
    // The return address (pc - 1) is on the stack. After both operand
    // bytes pc was 0xFFFF, so 0xFFFE is stored at 0x0100, low byte first.
    assert_eq!(mem.read(0x0100), 0xFE);
    assert_eq!(mem.read(0x0101), 0xFF);
}

#[test]
fn test_mem_initialize() {
    let mut mem = Mem::new();
    // Some arbitrary values.
    mem.write(1234, 0xAA);
    mem.write(4321, 0xBB);
    mem.initialize();
    // Every position in memory is 0.
    for i in 0..MAX_MEM {
        assert_eq!(mem.read(i), 0);
    }
}

#[test]
fn test_write_word() {
    let mut mem = Mem::new();
    let mut cycles = 10;
    // The word 0xBEEF at address 1000.
    mem.write_word(0xBEEF, 1000, &mut cycles);
    // Little-endian: the low byte (0xEF) at 1000, the high byte (0xBE)
    // at 1001.
    assert_eq!(mem.read(1000), 0xEF);
    assert_eq!(mem.read(1001), 0xBE);
    // Two cycles are spent.
    assert_eq!(cycles, 8);
}

#[test]
fn test_index_and_index_mut() {
    let mut mem = Mem::new();
    mem.write(2000, 0x55);
    assert_eq!(mem.read(2000), 0x55);
}
