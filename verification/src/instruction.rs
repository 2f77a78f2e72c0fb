//! The opcode table: which bytes name an instruction, and what each
//! instruction costs.

use vstd::prelude::*;
use crate::cpu::CPU;

verus! {

/// An instruction of the dispatch table, addressing mode included.
#[derive(Clone, Copy, Debug, PartialEq, Eq, Structural)]
pub enum Instruction {
    /// Load the accumulator with the byte that follows the opcode.
    LdaImmediate,
    /// Load the accumulator from the zero-page address that follows the opcode.
    LdaZeroPage,
    /// Jump to the subroutine at the 16-bit address that follows the opcode.
    Jsr,
}

impl Instruction {
    /// The byte that encodes this instruction.
    pub open spec fn opcode(self) -> u8 {
        match self {
            Instruction::LdaImmediate => 0xA9,
            Instruction::LdaZeroPage => 0xA5,
            Instruction::Jsr => 0x20,
        }
    }

    /// The instruction that `opcode` encodes, if the table holds one.
    pub open spec fn of_opcode(opcode: u8) -> Option<Instruction> {
        if opcode == 0xA9 {
            Some(Instruction::LdaImmediate)
        } else if opcode == 0xA5 {
            Some(Instruction::LdaZeroPage)
        } else if opcode == 0x20 {
            Some(Instruction::Jsr)
        } else {
            None
        }
    }

    /// The cycles that this instruction is charged, the fetch of its opcode
    /// included.
    pub open spec fn cycles(self) -> nat {
        match self {
            Instruction::LdaImmediate => 2,
            Instruction::LdaZeroPage => 3,
            Instruction::Jsr => 6,
        }
    }

    /// Decoding inverts encoding: an opcode names an instruction exactly
    /// when it is that instruction's encoding.
    pub proof fn lemma_decode_inverts_encode(opcode: u8, ins: Instruction)
        ensures
            Self::of_opcode(ins.opcode()) == Some(ins),
            Self::of_opcode(opcode) == Some(ins) <==> ins.opcode() == opcode,
    {
    }

    /// Looks `opcode` up in the dispatch table.
    pub fn decode(opcode: u8) -> (ins: Option<Instruction>)
        ensures
            ins == Self::of_opcode(opcode),
    {
        if opcode == CPU::INS_LDA_IM {
            Some(Instruction::LdaImmediate)
        } else if opcode == CPU::INS_LDA_ZP {
            Some(Instruction::LdaZeroPage)
        } else if opcode == CPU::INS_JSR {
            Some(Instruction::Jsr)
        } else {
            None
        }
    }
}

} // verus!
