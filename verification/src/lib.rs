//! An emulator of the MOS 6502 instruction-processing core.
//!
//! The machine is a value of [`cpu::CPU`]: registers, a status byte and a flat
//! memory image. Every instruction is given twice: as a pure function on
//! machine values, which is its meaning, and as an in-place routine proved to
//! compute that function.
pub mod flags;
pub mod opcodes;
pub mod cpu;
pub mod instructions;
pub mod engine;
