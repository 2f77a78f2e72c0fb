//! The processor: registers, status flags and the fetch-decode-execute engine.

use vstd::prelude::*;
use crate::instruction::Instruction;
use crate::machine::{CpuState, Machine, Outcome, wrap16};
use crate::memory::{Mem, charge, word_of};

verus! {

/// Why a call of `execute` came back.
#[derive(Clone, Copy, Debug, PartialEq, Eq, Structural)]
pub enum Halt {
    /// The cycle budget is used up.
    BudgetExhausted,
    /// The byte fetched as an opcode, given here, is not in the dispatch
    /// table. The program counter is just past it.
    UnhandledOpcode(u8),
}

/// The number that stands for a status flag: 1 when set, 0 when clear.
pub open spec fn flag_bit(flag: bool) -> u8 {
    if flag {
        1
    } else {
        0
    }
}

/// 6502 CPU emulator.
pub struct CPU {
    pc: u16,  // Program counter
    sp: u16,  // Stack pointer
    a: u8,  // Registers
    x: u8,
    y: u8,
    c: u8,  // Carry flag
    z: u8,  // Zero flag
    i: u8,  // Interrupt disable
    d: u8,  // Decimal mode
    b: u8,  // Break command
    v: u8,  // Overflow flag
    n: u8,  // Negative flag
}

impl View for CPU {
    type V = CpuState;

    closed spec fn view(&self) -> CpuState {
        CpuState {
            pc: self.pc,
            sp: self.sp,
            a: self.a,
            x: self.x,
            y: self.y,
            c: self.c == 1,
            z: self.z == 1,
            i: self.i == 1,
            d: self.d == 1,
            b: self.b == 1,
            v: self.v == 1,
            n: self.n == 1,
        }
    }
}

impl CPU {
    /// LDA immediate
    pub const INS_LDA_IM: u8 = 0xA9;

    /// LDA zero page
    pub const INS_LDA_ZP: u8 = 0xA5;

    /// LDA zero page,X. The dispatch table does not hold it yet.
    pub const INS_LDA_ZPX: u8 = 0xB5;

    /// JSR (jump to subroutine)
    pub const INS_JSR: u8 = 0x20;

    /// Each flag is a single bit, and the stack pointer is even.
    #[verifier::type_invariant]
    spec fn well_formed(self) -> bool {
        &&& self.sp % 2 == 0
        &&& self.c <= 1
        &&& self.z <= 1
        &&& self.i <= 1
        &&& self.d <= 1
        &&& self.b <= 1
        &&& self.v <= 1
        &&& self.n <= 1
    }

    /// This processor and `memory` as one abstract machine.
    pub open spec fn machine(&self, memory: &Mem) -> Machine {
        Machine { cpu: self@, mem: memory@ }
    }

    /// Creates a processor with every register and flag cleared.
    pub fn new() -> (cpu: Self)
        ensures
            cpu@ == CpuState::zeroed(),
    {
        Self { pc: 0, sp: 0, a: 0, x: 0, y: 0, c: 0, z: 0, i: 0, d: 0, b: 0, v: 0, n: 0 }
    }

    /// Resets the processor and clears the memory.
    ///
    /// The program counter goes to the reset vector (0xFFFC), the stack
    /// pointer to 0x0100, the interrupt-disable flag is set, every other
    /// register and flag is cleared, and every byte of memory becomes zero.
    pub fn reset(&mut self, memory: &mut Mem)
        ensures
            final(self).machine(final(memory)) == old(self).machine(old(memory)).reset(),
            final(self)@ == CpuState::after_reset(),
            final(memory)@ == Mem::zeroed(),
    {
        proof {
            use_type_invariant(&*self);
        }
        self.pc = 0xFFFC;
        self.sp = 0x0100;
        self.a = 0;
        self.x = 0;
        self.y = 0;
        self.c = 0;
        self.z = 0;
        self.i = 1;
        self.d = 0;
        self.b = 0;
        self.v = 0;
        self.n = 0;
        memory.initialize();
    }

    /// Fetches the byte at the program counter, steps the program counter
    /// past it (from 0xFFFF on to 0) and charges one cycle.
    pub fn fetch_byte(&mut self, cycles: &mut u32, memory: &Mem) -> (byte: u8)
        ensures
            byte == old(self).machine(memory).byte_ahead(0),
            final(self).machine(memory) == old(self).machine(memory).advance(1),
            *final(cycles) == charge(*old(cycles) as nat, 1),
    {
        proof {
            use_type_invariant(&*self);
        }
        let data = memory.read(self.pc as usize);
        self.pc = self.pc.wrapping_add(1);
        *cycles = cycles.saturating_sub(1);
        data
    }

    /// Fetches the 16-bit word at the program counter, low byte first,
    /// steps the program counter past both bytes and charges two cycles.
    pub fn fetch_word(&mut self, cycles: &mut u32, memory: &Mem) -> (word: u16)
        ensures
            word == word_of(
                old(self).machine(memory).byte_ahead(0),
                old(self).machine(memory).byte_ahead(1),
            ),
            final(self).machine(memory) == old(self).machine(memory).advance(2),
            *final(cycles) == charge(*old(cycles) as nat, 2),
    {
        // 6502 is little-endian: the first byte is the least significant.
        let low = self.fetch_byte(cycles, memory) as u16;
        let high = self.fetch_byte(cycles, memory) as u16;
        (high << 8) | low
    }

    /// Reads the byte at a zero-page address. The program counter stays
    /// where it is. Charges one cycle.
    pub fn read_byte(&mut self, cycles: &mut u32, address: u8, memory: &Mem) -> (byte: u8)
        ensures
            byte == memory@[address as int],
            final(self)@ == old(self)@,
            *final(cycles) == charge(*old(cycles) as nat, 1),
    {
        let data = memory.read(address as usize);
        *cycles = cycles.saturating_sub(1);
        data
    }

    /// Sets the zero and negative flags from the accumulator: zero when the
    /// accumulator is 0, negative when its bit 7 is set.
    pub fn lda_set_status(&mut self)
        ensures
            final(self)@ == old(self)@.with_load_flags(),
    {
        proof {
            use_type_invariant(&*self);
        }
        self.z = if self.a == 0 {
            1
        } else {
            0
        };
        self.n = if (self.a & 0b10000000) > 0 {
            1
        } else {
            0
        };
    }

    /// LDA immediate: loads the accumulator with the operand byte.
    fn lda_immediate(&mut self, cycles: &mut u32, memory: &Mem)
        ensures
            final(self).machine(memory) == old(self).machine(memory).perform(
                Instruction::LdaImmediate,
            ),
            *final(cycles) == charge(*old(cycles) as nat, 1),
    {
        let value = self.fetch_byte(cycles, memory);
        self.set_a(value);
        self.lda_set_status();
    }

    /// LDA zero page: loads the accumulator from the zero-page address that
    /// the operand byte gives.
    fn lda_zero_page(&mut self, cycles: &mut u32, memory: &Mem)
        ensures
            final(self).machine(memory) == old(self).machine(memory).perform(
                Instruction::LdaZeroPage,
            ),
            *final(cycles) == charge(*old(cycles) as nat, 2),
    {
        let zp_addr = self.fetch_byte(cycles, memory);
        let value = self.read_byte(cycles, zp_addr, memory);
        self.set_a(value);
        self.lda_set_status();
    }

    /// JSR: stores the address of the instruction's last byte at the stack
    /// pointer, moves the stack pointer up by two and jumps to the target.
    fn jsr(&mut self, cycles: &mut u32, memory: &mut Mem)
        ensures
            final(self).machine(final(memory)) == old(self).machine(old(memory)).perform(
                Instruction::Jsr,
            ),
            *final(cycles) == charge(*old(cycles) as nat, 5),
    {
        let sub_addr: u16 = self.fetch_word(cycles, memory);
        proof {
            use_type_invariant(&*self);
        }
        // Write return address (PC - 1) to the stack.
        memory.write_word(self.pc.wrapping_sub(1), self.sp as u32, cycles);
        self.pc = sub_addr;
        self.sp = self.sp.wrapping_add(2);
        *cycles = cycles.saturating_sub(1);
    }

    /// Carries out `ins`, whose opcode has just been fetched.
    fn perform(&mut self, ins: Instruction, cycles: &mut u32, memory: &mut Mem)
        ensures
            final(self).machine(final(memory)) == old(self).machine(old(memory)).perform(ins),
            *final(cycles) == charge(*old(cycles) as nat, (ins.cycles() - 1) as nat),
    {
        match ins {
            Instruction::LdaImmediate => self.lda_immediate(cycles, memory),
            Instruction::LdaZeroPage => self.lda_zero_page(cycles, memory),
            Instruction::Jsr => self.jsr(cycles, memory),
        }
    }

    /// Runs instructions until the cycle budget is used up or an opcode
    /// outside the dispatch table is fetched, and says which of the two
    /// ended the run.
    ///
    /// An instruction that starts is carried out in full, even when it
    /// costs more than what is left of the budget. With a budget of zero
    /// nothing is fetched and nothing changes.
    pub fn execute(&mut self, cycles: u32, memory: &mut Mem) -> (halt: Halt)
        ensures
            (Outcome { machine: final(self).machine(final(memory)), halt }) == old(self).machine(
                old(memory),
            ).run(cycles as nat),
            cycles == 0 ==> {
                &&& halt == Halt::BudgetExhausted
                &&& final(self)@ == old(self)@
                &&& final(memory)@ == old(memory)@
            },
            halt matches Halt::UnhandledOpcode(opcode) ==> {
                &&& Instruction::of_opcode(opcode) is None
                &&& final(memory)@[wrap16(final(self)@.pc - 1) as int] == opcode
            },
    {
        proof {
            use_type_invariant(&*self);
            memory.lemma_len();
            self.machine(memory).lemma_run_end(cycles as nat);
        }
        let mut remaining = cycles;
        while remaining > 0
            invariant
                self.machine(memory).run(remaining as nat) == old(self).machine(old(memory)).run(
                    cycles as nat,
                ),
            decreases remaining,
        {
            let opcode: u8 = self.fetch_byte(&mut remaining, memory);
            match Instruction::decode(opcode) {
                Some(ins) => self.perform(ins, &mut remaining, memory),
                None => {
                    return Halt::UnhandledOpcode(opcode);
                },
            }
        }
        Halt::BudgetExhausted
    }
}

impl CPU {
    // Getters
    pub fn get_pc(&self) -> (pc: u16)
        ensures
            pc == self@.pc,
    {
        self.pc
    }

    pub fn get_sp(&self) -> (sp: u16)
        ensures
            sp == self@.sp,
            sp % 2 == 0,
    {
        proof {
            use_type_invariant(self);
        }
        self.sp
    }

    pub fn get_a(&self) -> (a: u8)
        ensures
            a == self@.a,
    {
        self.a
    }

    pub fn get_x(&self) -> (x: u8)
        ensures
            x == self@.x,
    {
        self.x
    }

    pub fn get_y(&self) -> (y: u8)
        ensures
            y == self@.y,
    {
        self.y
    }

    pub fn get_c(&self) -> (c: u8)
        ensures
            c == flag_bit(self@.c),
    {
        proof {
            use_type_invariant(self);
        }
        self.c
    }

    pub fn get_z(&self) -> (z: u8)
        ensures
            z == flag_bit(self@.z),
    {
        proof {
            use_type_invariant(self);
        }
        self.z
    }

    pub fn get_i(&self) -> (i: u8)
        ensures
            i == flag_bit(self@.i),
    {
        proof {
            use_type_invariant(self);
        }
        self.i
    }

    pub fn get_d(&self) -> (d: u8)
        ensures
            d == flag_bit(self@.d),
    {
        proof {
            use_type_invariant(self);
        }
        self.d
    }

    pub fn get_b(&self) -> (b: u8)
        ensures
            b == flag_bit(self@.b),
    {
        proof {
            use_type_invariant(self);
        }
        self.b
    }

    pub fn get_v(&self) -> (v: u8)
        ensures
            v == flag_bit(self@.v),
    {
        proof {
            use_type_invariant(self);
        }
        self.v
    }

    pub fn get_n(&self) -> (n: u8)
        ensures
            n == flag_bit(self@.n),
    {
        proof {
            use_type_invariant(self);
        }
        self.n
    }

    // Setters
    pub fn set_pc(&mut self, value: u16)
        ensures
            final(self)@ == (CpuState { pc: value, ..old(self)@ }),
    {
        proof {
            use_type_invariant(&*self);
        }
        self.pc = value;
    }

    pub fn set_a(&mut self, value: u8)
        ensures
            final(self)@ == (CpuState { a: value, ..old(self)@ }),
    {
        proof {
            use_type_invariant(&*self);
        }
        self.a = value;
    }
}

} // verus!
