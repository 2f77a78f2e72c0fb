//! The abstract machine: processor state and memory as mathematical values,
//! what each instruction does to them, and what a run on a cycle budget
//! leads to. The emulator's contracts are stated against this description.

use vstd::prelude::*;
use crate::cpu::Halt;
use crate::instruction::Instruction;
use crate::memory::{Mem, MAX_MEM, charge, word_of, word_at, with_word, lemma_word_at_with_word};

verus! {

/// The value of `n` as a 16-bit address: addresses wrap modulo 65536.
pub open spec fn wrap16(n: int) -> u16 {
    (n % 0x1_0000) as u16
}

/// Whether bit 7, the sign bit, of a byte is set.
pub open spec fn bit7(value: u8) -> bool {
    value & 0x80 != 0
}

/// Bit 7 of a byte is set exactly when the byte is 128 or more.
pub proof fn lemma_bit7_is_upper_half(value: u8)
    ensures
        bit7(value) <==> value >= 128,
{
    assert((value & 0x80 != 0) <==> value >= 128) by (bit_vector);
}

/// The registers and status flags of the processor.
pub struct CpuState {
    /// Program counter: the address of the next byte to fetch.
    pub pc: u16,
    /// Stack pointer, taken as an absolute address.
    pub sp: u16,
    /// Accumulator.
    pub a: u8,
    /// Index register X.
    pub x: u8,
    /// Index register Y.
    pub y: u8,
    /// Carry flag.
    pub c: bool,
    /// Zero flag.
    pub z: bool,
    /// Interrupt-disable flag.
    pub i: bool,
    /// Decimal-mode flag.
    pub d: bool,
    /// Break flag.
    pub b: bool,
    /// Overflow flag.
    pub v: bool,
    /// Negative flag.
    pub n: bool,
}

impl CpuState {
    /// Every register and every flag zero.
    pub open spec fn zeroed() -> CpuState {
        CpuState {
            pc: 0,
            sp: 0,
            a: 0,
            x: 0,
            y: 0,
            c: false,
            z: false,
            i: false,
            d: false,
            b: false,
            v: false,
            n: false,
        }
    }

    /// The state that a reset forces: the program counter at the reset
    /// vector, the stack pointer at the top of the stack page, interrupts
    /// disabled, everything else zero.
    pub open spec fn after_reset() -> CpuState {
        CpuState { pc: 0xFFFC, sp: 0x0100, i: true, ..Self::zeroed() }
    }

    /// This state with the zero and negative flags set from the
    /// accumulator, as every load leaves them. No other flag changes.
    pub open spec fn with_load_flags(self) -> CpuState {
        CpuState { z: self.a == 0, n: bit7(self.a), ..self }
    }
}

/// Processor state together with the memory it runs on.
#[verifier::ext_equal]
pub struct Machine {
    pub cpu: CpuState,
    pub mem: Seq<u8>,
}

/// Where a run ended and why.
#[verifier::ext_equal]
pub struct Outcome {
    pub machine: Machine,
    pub halt: Halt,
}

impl Machine {
    /// The memory spans the whole address space, and the stack pointer is
    /// even. The stack pointer starts even and only ever moves by whole
    /// words, so a word pushed at it never runs past the last address.
    pub open spec fn valid(self) -> bool {
        &&& self.mem.len() == MAX_MEM
        &&& self.cpu.sp % 2 == 0
    }

    /// The byte `offset` places after the one the program counter names.
    pub open spec fn byte_ahead(self, offset: nat) -> u8 {
        self.mem[wrap16(self.cpu.pc + offset) as int]
    }

    /// This machine with the program counter `count` bytes further on.
    pub open spec fn advance(self, count: nat) -> Machine {
        Machine { cpu: CpuState { pc: wrap16(self.cpu.pc + count), ..self.cpu }, ..self }
    }

    /// This machine with `value` loaded into the accumulator and the zero
    /// and negative flags set from it.
    pub open spec fn load_accumulator(self, value: u8) -> Machine {
        Machine { cpu: (CpuState { a: value, ..self.cpu }).with_load_flags(), ..self }
    }

    /// The machine after a reset, whatever it was before: the processor in
    /// its reset state and every byte of memory zero.
    pub open spec fn reset(self) -> Machine {
        Machine { cpu: CpuState::after_reset(), mem: Mem::zeroed() }
    }

    /// The machine after `ins` has been carried out. The opcode has been
    /// fetched already: the program counter names the first operand byte.
    pub open spec fn perform(self, ins: Instruction) -> Machine {
        match ins {
            Instruction::LdaImmediate => self.load_accumulator(self.byte_ahead(0)).advance(1),
            Instruction::LdaZeroPage => self.load_accumulator(
                self.mem[self.byte_ahead(0) as int],
            ).advance(1),
            Instruction::Jsr => Machine {
                cpu: CpuState {
                    pc: word_of(self.byte_ahead(0), self.byte_ahead(1)),
                    sp: wrap16(self.cpu.sp + 2),
                    ..self.cpu
                },
                mem: with_word(self.mem, self.cpu.sp as int, wrap16(self.cpu.pc + 1)),
            },
        }
    }

    /// Where the machine ends up when it runs on a budget of `cycles`.
    ///
    /// With nothing left it stops where it is. Otherwise it fetches the
    /// opcode at the program counter. An opcode outside the table stops it
    /// just past that byte. An instruction of the table is carried out in
    /// full, charged to the budget, and the run goes on from there.
    pub open spec fn run(self, cycles: nat) -> Outcome
        decreases cycles,
    {
        if cycles == 0 {
            Outcome { machine: self, halt: Halt::BudgetExhausted }
        } else {
            let opcode = self.byte_ahead(0);
            match Instruction::of_opcode(opcode) {
                Some(ins) => self.advance(1).perform(ins).run(charge(cycles, ins.cycles())),
                None => Outcome { machine: self.advance(1), halt: Halt::UnhandledOpcode(opcode) },
            }
        }
    }

    /// A reset leads to the same machine whatever it starts from.
    pub proof fn lemma_reset_forgets(self, other: Machine)
        ensures
            self.reset() == other.reset(),
            self.reset().valid(),
    {
    }

    /// A second reset right after a first changes nothing.
    pub proof fn lemma_reset_idempotent(self)
        ensures
            self.reset().reset() == self.reset(),
    {
    }

    /// Stepping the program counter adds to it, and from the last address
    /// it goes on at address 0. Nothing else changes.
    pub proof fn lemma_advance_wraps(self, count: nat)
        requires
            count <= 0x1_0000,
        ensures
            self.advance(count).cpu.pc == if self.cpu.pc + count < 0x1_0000 {
                self.cpu.pc + count
            } else {
                self.cpu.pc + count - 0x1_0000
            },
            self.advance(count) == (Machine {
                cpu: CpuState { pc: self.advance(count).cpu.pc, ..self.cpu },
                mem: self.mem,
            }),
            self.advance(1).advance(1) == self.advance(2),
    {
    }

    /// After a load the zero flag says whether the loaded byte is zero and
    /// the negative flag whether its bit 7 is set; the other flags and the
    /// other registers are as before.
    pub proof fn lemma_load_sets_flags(self, value: u8)
        ensures
            self.load_accumulator(value).cpu.a == value,
            self.load_accumulator(value).cpu.z == (value == 0),
            self.load_accumulator(value).cpu.n == bit7(value),
            self.load_accumulator(value) == (Machine {
                cpu: CpuState { a: value, z: value == 0, n: bit7(value), ..self.cpu },
                mem: self.mem,
            }),
    {
    }

    /// Both load instructions leave the flags as a load of the byte now in
    /// the accumulator leaves them, and step past their one operand byte.
    pub proof fn lemma_lda_flags(self, ins: Instruction)
        requires
            ins == Instruction::LdaImmediate || ins == Instruction::LdaZeroPage,
        ensures
            ins == Instruction::LdaImmediate ==> self.perform(ins).cpu.a == self.byte_ahead(0),
            ins == Instruction::LdaZeroPage ==> self.perform(ins).cpu.a == self.mem[self.byte_ahead(
                0,
            ) as int],
            self.perform(ins).cpu.z == (self.perform(ins).cpu.a == 0),
            self.perform(ins).cpu.n == bit7(self.perform(ins).cpu.a),
            self.perform(ins).cpu == (CpuState {
                pc: wrap16(self.cpu.pc + 1),
                a: self.perform(ins).cpu.a,
                z: self.perform(ins).cpu.z,
                n: self.perform(ins).cpu.n,
                ..self.cpu
            }),
            self.perform(ins).mem == self.mem,
    {
    }

    /// A jump to subroutine goes to the address its two operand bytes
    /// encode, moves the stack pointer up by two, and leaves at the old
    /// stack pointer, low byte first, the address of its own last byte.
    pub proof fn lemma_jsr_pushes_return_address(self)
        requires
            self.valid(),
        ensures
            self.perform(Instruction::Jsr).cpu.pc == word_of(self.byte_ahead(0), self.byte_ahead(1)),
            self.perform(Instruction::Jsr).cpu.sp == wrap16(self.cpu.sp + 2),
            word_at(self.perform(Instruction::Jsr).mem, self.cpu.sp as int) == wrap16(
                self.cpu.pc + 1,
            ),
            self.perform(Instruction::Jsr).valid(),
    {
        lemma_word_at_with_word(self.mem, self.cpu.sp as int, wrap16(self.cpu.pc + 1));
    }

    /// Every instruction leaves a valid machine valid.
    pub proof fn lemma_perform_keeps_valid(self, ins: Instruction)
        requires
            self.valid(),
        ensures
            self.perform(ins).valid(),
    {
    }

    /// A run on an empty budget fetches nothing and changes nothing.
    pub proof fn lemma_run_on_empty_budget(self)
        ensures
            self.run(0) == (Outcome { machine: self, halt: Halt::BudgetExhausted }),
    {
    }

    /// A run that meets an opcode outside the table first stops at once:
    /// the program counter is just past that byte, and every other register,
    /// every flag and the memory are as they were.
    pub proof fn lemma_unknown_opcode_stops(self, cycles: nat)
        requires
            cycles > 0,
            Instruction::of_opcode(self.byte_ahead(0)) is None,
        ensures
            self.run(cycles) == (Outcome {
                machine: Machine {
                    cpu: CpuState { pc: wrap16(self.cpu.pc + 1), ..self.cpu },
                    mem: self.mem,
                },
                halt: Halt::UnhandledOpcode(self.byte_ahead(0)),
            }),
    {
    }

    /// A run that meets an instruction of the table first carries it out,
    /// charges it, and goes on.
    pub proof fn lemma_run_unfolds(self, cycles: nat, ins: Instruction)
        requires
            cycles > 0,
            Instruction::of_opcode(self.byte_ahead(0)) == Some(ins),
        ensures
            self.run(cycles) == self.advance(1).perform(ins).run(charge(cycles, ins.cycles())),
    {
    }

    /// An instruction that starts is carried out in full: on a budget that
    /// is not above its cost the run does exactly this one instruction and
    /// ends with the budget used up.
    pub proof fn lemma_last_instruction_completes(self, cycles: nat, ins: Instruction)
        requires
            0 < cycles <= ins.cycles(),
            Instruction::of_opcode(self.byte_ahead(0)) == Some(ins),
        ensures
            self.run(cycles) == (Outcome {
                machine: self.advance(1).perform(ins),
                halt: Halt::BudgetExhausted,
            }),
    {
        assert(self.advance(1).perform(ins).run(0) == (Outcome {
            machine: self.advance(1).perform(ins),
            halt: Halt::BudgetExhausted,
        }));
    }

    /// Wherever a run ends, the machine is valid. If an opcode stopped it,
    /// that opcode is outside the table and is the byte just before the
    /// program counter.
    pub proof fn lemma_run_end(self, cycles: nat)
        requires
            self.valid(),
        ensures
            self.run(cycles).machine.valid(),
            self.run(cycles).halt matches Halt::UnhandledOpcode(opcode) ==> {
                let end = self.run(cycles).machine;
                &&& Instruction::of_opcode(opcode) is None
                &&& end.mem[wrap16(end.cpu.pc - 1) as int] == opcode
            },
        decreases cycles,
    {
        if cycles > 0 {
            match Instruction::of_opcode(self.byte_ahead(0)) {
                Some(ins) => {
                    self.advance(1).lemma_perform_keeps_valid(ins);
                    self.advance(1).perform(ins).lemma_run_end(charge(cycles, ins.cycles()));
                },
                None => {},
            }
        }
    }
}

} // verus!
