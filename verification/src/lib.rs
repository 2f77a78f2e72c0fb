//! An emulator core for the MOS 6502 microprocessor: a flat 64 KiB memory and
//! a register machine that fetches, decodes and executes instructions against
//! it while drawing on a cycle budget.
//!
//! `memory` and `cpu` hold the executable emulator. `instruction` holds the
//! opcode table. `machine` describes the same processor as a mathematical
//! value, and every contract of the emulator is stated against it.

pub mod memory;
pub mod instruction;
pub mod machine;
pub mod cpu;
