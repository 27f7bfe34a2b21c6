//! The instruction metadata table: for each opcode its mnemonic, its length
//! in bytes, its base cycle count and its addressing mode.
use vstd::prelude::*;
use crate::cpu::AddressingMode;

verus! {

/// One row of the table.
#[derive(Clone, Copy, Debug)]
pub struct OpCode {
    pub code: u8,
    pub mnemonic: &'static str,
    /// Total bytes of the instruction, the opcode byte included.
    pub len: u8,
    /// Base cycle count; carried along, never used for timing.
    pub cycles: u8,
    pub mode: AddressingMode,
}

/// The row with the given fields.
pub open spec fn row(code: u8, mnemonic: &'static str, len: u8, cycles: u8, mode: AddressingMode) -> OpCode {
    OpCode { code, mnemonic, len, cycles, mode }
}

impl OpCode {
    /// Makes a row.
    pub fn new(code: u8, mnemonic: &'static str, len: u8, cycles: u8, mode: AddressingMode) -> (op: OpCode)
        ensures
            op == row(code, mnemonic, len, cycles, mode),
    {
        OpCode { code, mnemonic, len, cycles, mode }
    }
}

/// The table itself: the row of each of the 151 documented opcodes, and
/// `None` for every other byte.
pub open spec fn opcode(code: u8) -> Option<OpCode> {
    match code {
        0x00 => Some(OpCode { code: 0x00, mnemonic: "BRK", len: 1, cycles: 7, mode: AddressingMode::NoneAddressing }),
        0x01 => Some(OpCode { code: 0x01, mnemonic: "ORA", len: 2, cycles: 6, mode: AddressingMode::IndirectX }),
        0x05 => Some(OpCode { code: 0x05, mnemonic: "ORA", len: 2, cycles: 3, mode: AddressingMode::ZeroPage }),
        0x06 => Some(OpCode { code: 0x06, mnemonic: "ASL", len: 2, cycles: 5, mode: AddressingMode::ZeroPage }),
        0x08 => Some(OpCode { code: 0x08, mnemonic: "PHP", len: 1, cycles: 3, mode: AddressingMode::NoneAddressing }),
        0x09 => Some(OpCode { code: 0x09, mnemonic: "ORA", len: 2, cycles: 2, mode: AddressingMode::Immediate }),
        0x0A => Some(OpCode { code: 0x0A, mnemonic: "ASL", len: 1, cycles: 2, mode: AddressingMode::NoneAddressing }),
        0x0D => Some(OpCode { code: 0x0D, mnemonic: "ORA", len: 3, cycles: 4, mode: AddressingMode::Absolute }),
        0x0E => Some(OpCode { code: 0x0E, mnemonic: "ASL", len: 3, cycles: 6, mode: AddressingMode::Absolute }),
        0x10 => Some(OpCode { code: 0x10, mnemonic: "BPL", len: 2, cycles: 2, mode: AddressingMode::NoneAddressing }),
        0x11 => Some(OpCode { code: 0x11, mnemonic: "ORA", len: 2, cycles: 5, mode: AddressingMode::IndirectY }),
        0x15 => Some(OpCode { code: 0x15, mnemonic: "ORA", len: 2, cycles: 4, mode: AddressingMode::ZeroPageX }),
        0x16 => Some(OpCode { code: 0x16, mnemonic: "ASL", len: 2, cycles: 6, mode: AddressingMode::ZeroPageX }),
        0x18 => Some(OpCode { code: 0x18, mnemonic: "CLC", len: 1, cycles: 2, mode: AddressingMode::NoneAddressing }),
        0x19 => Some(OpCode { code: 0x19, mnemonic: "ORA", len: 3, cycles: 4, mode: AddressingMode::AbsoluteY }),
        0x1D => Some(OpCode { code: 0x1D, mnemonic: "ORA", len: 3, cycles: 4, mode: AddressingMode::AbsoluteX }),
        0x1E => Some(OpCode { code: 0x1E, mnemonic: "ASL", len: 3, cycles: 7, mode: AddressingMode::AbsoluteX }),
        0x20 => Some(OpCode { code: 0x20, mnemonic: "JSR", len: 3, cycles: 6, mode: AddressingMode::NoneAddressing }),
        0x21 => Some(OpCode { code: 0x21, mnemonic: "AND", len: 2, cycles: 6, mode: AddressingMode::IndirectX }),
        0x24 => Some(OpCode { code: 0x24, mnemonic: "BIT", len: 2, cycles: 3, mode: AddressingMode::ZeroPage }),
        0x25 => Some(OpCode { code: 0x25, mnemonic: "AND", len: 2, cycles: 3, mode: AddressingMode::ZeroPage }),
        0x26 => Some(OpCode { code: 0x26, mnemonic: "ROL", len: 2, cycles: 5, mode: AddressingMode::ZeroPage }),
        0x28 => Some(OpCode { code: 0x28, mnemonic: "PLP", len: 1, cycles: 4, mode: AddressingMode::NoneAddressing }),
        0x29 => Some(OpCode { code: 0x29, mnemonic: "AND", len: 2, cycles: 2, mode: AddressingMode::Immediate }),
        0x2A => Some(OpCode { code: 0x2A, mnemonic: "ROL", len: 1, cycles: 2, mode: AddressingMode::NoneAddressing }),
        0x2C => Some(OpCode { code: 0x2C, mnemonic: "BIT", len: 3, cycles: 4, mode: AddressingMode::Absolute }),
        0x2D => Some(OpCode { code: 0x2D, mnemonic: "AND", len: 3, cycles: 4, mode: AddressingMode::Absolute }),
        0x2E => Some(OpCode { code: 0x2E, mnemonic: "ROL", len: 3, cycles: 6, mode: AddressingMode::Absolute }),
        0x30 => Some(OpCode { code: 0x30, mnemonic: "BMI", len: 2, cycles: 2, mode: AddressingMode::NoneAddressing }),
        0x31 => Some(OpCode { code: 0x31, mnemonic: "AND", len: 2, cycles: 5, mode: AddressingMode::IndirectY }),
        0x35 => Some(OpCode { code: 0x35, mnemonic: "AND", len: 2, cycles: 4, mode: AddressingMode::ZeroPageX }),
        0x36 => Some(OpCode { code: 0x36, mnemonic: "ROL", len: 2, cycles: 6, mode: AddressingMode::ZeroPageX }),
        0x38 => Some(OpCode { code: 0x38, mnemonic: "SEC", len: 1, cycles: 2, mode: AddressingMode::NoneAddressing }),
        0x39 => Some(OpCode { code: 0x39, mnemonic: "AND", len: 3, cycles: 4, mode: AddressingMode::AbsoluteY }),
        0x3D => Some(OpCode { code: 0x3D, mnemonic: "AND", len: 3, cycles: 4, mode: AddressingMode::AbsoluteX }),
        0x3E => Some(OpCode { code: 0x3E, mnemonic: "ROL", len: 3, cycles: 7, mode: AddressingMode::AbsoluteX }),
        0x40 => Some(OpCode { code: 0x40, mnemonic: "RTI", len: 1, cycles: 6, mode: AddressingMode::NoneAddressing }),
        0x41 => Some(OpCode { code: 0x41, mnemonic: "EOR", len: 2, cycles: 6, mode: AddressingMode::IndirectX }),
        0x45 => Some(OpCode { code: 0x45, mnemonic: "EOR", len: 2, cycles: 3, mode: AddressingMode::ZeroPage }),
        0x46 => Some(OpCode { code: 0x46, mnemonic: "LSR", len: 2, cycles: 5, mode: AddressingMode::ZeroPage }),
        0x48 => Some(OpCode { code: 0x48, mnemonic: "PHA", len: 1, cycles: 3, mode: AddressingMode::NoneAddressing }),
        0x49 => Some(OpCode { code: 0x49, mnemonic: "EOR", len: 2, cycles: 2, mode: AddressingMode::Immediate }),
        0x4A => Some(OpCode { code: 0x4A, mnemonic: "LSR", len: 1, cycles: 2, mode: AddressingMode::NoneAddressing }),
        0x4C => Some(OpCode { code: 0x4C, mnemonic: "JMP", len: 3, cycles: 3, mode: AddressingMode::NoneAddressing }),
        0x4D => Some(OpCode { code: 0x4D, mnemonic: "EOR", len: 3, cycles: 4, mode: AddressingMode::Absolute }),
        0x4E => Some(OpCode { code: 0x4E, mnemonic: "LSR", len: 3, cycles: 6, mode: AddressingMode::Absolute }),
        0x50 => Some(OpCode { code: 0x50, mnemonic: "BVC", len: 2, cycles: 2, mode: AddressingMode::NoneAddressing }),
        0x51 => Some(OpCode { code: 0x51, mnemonic: "EOR", len: 2, cycles: 5, mode: AddressingMode::IndirectY }),
        0x55 => Some(OpCode { code: 0x55, mnemonic: "EOR", len: 2, cycles: 4, mode: AddressingMode::ZeroPageX }),
        0x56 => Some(OpCode { code: 0x56, mnemonic: "LSR", len: 2, cycles: 6, mode: AddressingMode::ZeroPageX }),
        0x58 => Some(OpCode { code: 0x58, mnemonic: "CLI", len: 1, cycles: 2, mode: AddressingMode::NoneAddressing }),
        0x59 => Some(OpCode { code: 0x59, mnemonic: "EOR", len: 3, cycles: 4, mode: AddressingMode::AbsoluteY }),
        0x5D => Some(OpCode { code: 0x5D, mnemonic: "EOR", len: 3, cycles: 4, mode: AddressingMode::AbsoluteX }),
        0x5E => Some(OpCode { code: 0x5E, mnemonic: "LSR", len: 3, cycles: 7, mode: AddressingMode::AbsoluteX }),
        0x60 => Some(OpCode { code: 0x60, mnemonic: "RTS", len: 1, cycles: 6, mode: AddressingMode::NoneAddressing }),
        0x61 => Some(OpCode { code: 0x61, mnemonic: "ADC", len: 2, cycles: 6, mode: AddressingMode::IndirectX }),
        0x65 => Some(OpCode { code: 0x65, mnemonic: "ADC", len: 2, cycles: 3, mode: AddressingMode::ZeroPage }),
        0x66 => Some(OpCode { code: 0x66, mnemonic: "ROR", len: 2, cycles: 5, mode: AddressingMode::ZeroPage }),
        0x68 => Some(OpCode { code: 0x68, mnemonic: "PLA", len: 1, cycles: 4, mode: AddressingMode::NoneAddressing }),
        0x69 => Some(OpCode { code: 0x69, mnemonic: "ADC", len: 2, cycles: 2, mode: AddressingMode::Immediate }),
        0x6A => Some(OpCode { code: 0x6A, mnemonic: "ROR", len: 1, cycles: 2, mode: AddressingMode::NoneAddressing }),
        0x6C => Some(OpCode { code: 0x6C, mnemonic: "JMP", len: 3, cycles: 5, mode: AddressingMode::NoneAddressing }),
        0x6D => Some(OpCode { code: 0x6D, mnemonic: "ADC", len: 3, cycles: 4, mode: AddressingMode::Absolute }),
        0x6E => Some(OpCode { code: 0x6E, mnemonic: "ROR", len: 3, cycles: 6, mode: AddressingMode::Absolute }),
        0x70 => Some(OpCode { code: 0x70, mnemonic: "BVS", len: 2, cycles: 2, mode: AddressingMode::NoneAddressing }),
        0x71 => Some(OpCode { code: 0x71, mnemonic: "ADC", len: 2, cycles: 5, mode: AddressingMode::IndirectY }),
        0x75 => Some(OpCode { code: 0x75, mnemonic: "ADC", len: 2, cycles: 4, mode: AddressingMode::ZeroPageX }),
        0x76 => Some(OpCode { code: 0x76, mnemonic: "ROR", len: 2, cycles: 6, mode: AddressingMode::ZeroPageX }),
        0x78 => Some(OpCode { code: 0x78, mnemonic: "SEI", len: 1, cycles: 2, mode: AddressingMode::NoneAddressing }),
        0x79 => Some(OpCode { code: 0x79, mnemonic: "ADC", len: 3, cycles: 4, mode: AddressingMode::AbsoluteY }),
        0x7D => Some(OpCode { code: 0x7D, mnemonic: "ADC", len: 3, cycles: 4, mode: AddressingMode::AbsoluteX }),
        0x7E => Some(OpCode { code: 0x7E, mnemonic: "ROR", len: 3, cycles: 7, mode: AddressingMode::AbsoluteX }),
        0x81 => Some(OpCode { code: 0x81, mnemonic: "STA", len: 2, cycles: 6, mode: AddressingMode::IndirectX }),
        0x84 => Some(OpCode { code: 0x84, mnemonic: "STY", len: 2, cycles: 3, mode: AddressingMode::ZeroPage }),
        0x85 => Some(OpCode { code: 0x85, mnemonic: "STA", len: 2, cycles: 3, mode: AddressingMode::ZeroPage }),
        0x86 => Some(OpCode { code: 0x86, mnemonic: "STX", len: 2, cycles: 3, mode: AddressingMode::ZeroPage }),
        0x88 => Some(OpCode { code: 0x88, mnemonic: "DEY", len: 1, cycles: 2, mode: AddressingMode::NoneAddressing }),
        0x8A => Some(OpCode { code: 0x8A, mnemonic: "TXA", len: 1, cycles: 2, mode: AddressingMode::NoneAddressing }),
        0x8C => Some(OpCode { code: 0x8C, mnemonic: "STY", len: 3, cycles: 4, mode: AddressingMode::Absolute }),
        0x8D => Some(OpCode { code: 0x8D, mnemonic: "STA", len: 3, cycles: 4, mode: AddressingMode::Absolute }),
        0x8E => Some(OpCode { code: 0x8E, mnemonic: "STX", len: 3, cycles: 4, mode: AddressingMode::Absolute }),
        0x90 => Some(OpCode { code: 0x90, mnemonic: "BCC", len: 2, cycles: 2, mode: AddressingMode::NoneAddressing }),
        0x91 => Some(OpCode { code: 0x91, mnemonic: "STA", len: 2, cycles: 6, mode: AddressingMode::IndirectY }),
        0x94 => Some(OpCode { code: 0x94, mnemonic: "STY", len: 2, cycles: 4, mode: AddressingMode::ZeroPageX }),
        0x95 => Some(OpCode { code: 0x95, mnemonic: "STA", len: 2, cycles: 4, mode: AddressingMode::ZeroPageX }),
        0x96 => Some(OpCode { code: 0x96, mnemonic: "STX", len: 2, cycles: 4, mode: AddressingMode::ZeroPageY }),
        0x98 => Some(OpCode { code: 0x98, mnemonic: "TYA", len: 1, cycles: 2, mode: AddressingMode::NoneAddressing }),
        0x99 => Some(OpCode { code: 0x99, mnemonic: "STA", len: 3, cycles: 5, mode: AddressingMode::AbsoluteY }),
        0x9A => Some(OpCode { code: 0x9A, mnemonic: "TXS", len: 1, cycles: 2, mode: AddressingMode::NoneAddressing }),
        0x9D => Some(OpCode { code: 0x9D, mnemonic: "STA", len: 3, cycles: 5, mode: AddressingMode::AbsoluteX }),
        0xA0 => Some(OpCode { code: 0xA0, mnemonic: "LDY", len: 2, cycles: 2, mode: AddressingMode::Immediate }),
        0xA1 => Some(OpCode { code: 0xA1, mnemonic: "LDA", len: 2, cycles: 6, mode: AddressingMode::IndirectX }),
        0xA2 => Some(OpCode { code: 0xA2, mnemonic: "LDX", len: 2, cycles: 2, mode: AddressingMode::Immediate }),
        0xA4 => Some(OpCode { code: 0xA4, mnemonic: "LDY", len: 2, cycles: 3, mode: AddressingMode::ZeroPage }),
        0xA5 => Some(OpCode { code: 0xA5, mnemonic: "LDA", len: 2, cycles: 3, mode: AddressingMode::ZeroPage }),
        0xA6 => Some(OpCode { code: 0xA6, mnemonic: "LDX", len: 2, cycles: 3, mode: AddressingMode::ZeroPage }),
        0xA8 => Some(OpCode { code: 0xA8, mnemonic: "TAY", len: 1, cycles: 2, mode: AddressingMode::NoneAddressing }),
        0xA9 => Some(OpCode { code: 0xA9, mnemonic: "LDA", len: 2, cycles: 2, mode: AddressingMode::Immediate }),
        0xAA => Some(OpCode { code: 0xAA, mnemonic: "TAX", len: 1, cycles: 2, mode: AddressingMode::NoneAddressing }),
        0xAC => Some(OpCode { code: 0xAC, mnemonic: "LDY", len: 3, cycles: 4, mode: AddressingMode::Absolute }),
        0xAD => Some(OpCode { code: 0xAD, mnemonic: "LDA", len: 3, cycles: 4, mode: AddressingMode::Absolute }),
        0xAE => Some(OpCode { code: 0xAE, mnemonic: "LDX", len: 3, cycles: 4, mode: AddressingMode::Absolute }),
        0xB0 => Some(OpCode { code: 0xB0, mnemonic: "BCS", len: 2, cycles: 2, mode: AddressingMode::NoneAddressing }),
        0xB1 => Some(OpCode { code: 0xB1, mnemonic: "LDA", len: 2, cycles: 5, mode: AddressingMode::IndirectY }),
        0xB4 => Some(OpCode { code: 0xB4, mnemonic: "LDY", len: 2, cycles: 4, mode: AddressingMode::ZeroPageX }),
        0xB5 => Some(OpCode { code: 0xB5, mnemonic: "LDA", len: 2, cycles: 4, mode: AddressingMode::ZeroPageX }),
        0xB6 => Some(OpCode { code: 0xB6, mnemonic: "LDX", len: 2, cycles: 4, mode: AddressingMode::ZeroPageY }),
        0xB8 => Some(OpCode { code: 0xB8, mnemonic: "CLV", len: 1, cycles: 2, mode: AddressingMode::NoneAddressing }),
        0xB9 => Some(OpCode { code: 0xB9, mnemonic: "LDA", len: 3, cycles: 4, mode: AddressingMode::AbsoluteY }),
        0xBA => Some(OpCode { code: 0xBA, mnemonic: "TSX", len: 1, cycles: 2, mode: AddressingMode::NoneAddressing }),
        0xBC => Some(OpCode { code: 0xBC, mnemonic: "LDY", len: 3, cycles: 4, mode: AddressingMode::AbsoluteX }),
        0xBD => Some(OpCode { code: 0xBD, mnemonic: "LDA", len: 3, cycles: 4, mode: AddressingMode::AbsoluteX }),
        0xBE => Some(OpCode { code: 0xBE, mnemonic: "LDX", len: 3, cycles: 4, mode: AddressingMode::AbsoluteY }),
        0xC0 => Some(OpCode { code: 0xC0, mnemonic: "CPY", len: 2, cycles: 2, mode: AddressingMode::Immediate }),
        0xC1 => Some(OpCode { code: 0xC1, mnemonic: "CMP", len: 2, cycles: 6, mode: AddressingMode::IndirectX }),
        0xC4 => Some(OpCode { code: 0xC4, mnemonic: "CPY", len: 2, cycles: 3, mode: AddressingMode::ZeroPage }),
        0xC5 => Some(OpCode { code: 0xC5, mnemonic: "CMP", len: 2, cycles: 3, mode: AddressingMode::ZeroPage }),
        0xC6 => Some(OpCode { code: 0xC6, mnemonic: "DEC", len: 2, cycles: 5, mode: AddressingMode::ZeroPage }),
        0xC8 => Some(OpCode { code: 0xC8, mnemonic: "INY", len: 1, cycles: 2, mode: AddressingMode::NoneAddressing }),
        0xC9 => Some(OpCode { code: 0xC9, mnemonic: "CMP", len: 2, cycles: 2, mode: AddressingMode::Immediate }),
        0xCA => Some(OpCode { code: 0xCA, mnemonic: "DEX", len: 1, cycles: 2, mode: AddressingMode::NoneAddressing }),
        0xCC => Some(OpCode { code: 0xCC, mnemonic: "CPY", len: 3, cycles: 4, mode: AddressingMode::Absolute }),
        0xCD => Some(OpCode { code: 0xCD, mnemonic: "CMP", len: 3, cycles: 4, mode: AddressingMode::Absolute }),
        0xCE => Some(OpCode { code: 0xCE, mnemonic: "DEC", len: 3, cycles: 6, mode: AddressingMode::Absolute }),
        0xD0 => Some(OpCode { code: 0xD0, mnemonic: "BNE", len: 2, cycles: 2, mode: AddressingMode::NoneAddressing }),
        0xD1 => Some(OpCode { code: 0xD1, mnemonic: "CMP", len: 2, cycles: 5, mode: AddressingMode::IndirectY }),
        0xD5 => Some(OpCode { code: 0xD5, mnemonic: "CMP", len: 2, cycles: 4, mode: AddressingMode::ZeroPageX }),
        0xD6 => Some(OpCode { code: 0xD6, mnemonic: "DEC", len: 2, cycles: 6, mode: AddressingMode::ZeroPageX }),
        0xD8 => Some(OpCode { code: 0xD8, mnemonic: "CLD", len: 1, cycles: 2, mode: AddressingMode::NoneAddressing }),
        0xD9 => Some(OpCode { code: 0xD9, mnemonic: "CMP", len: 3, cycles: 4, mode: AddressingMode::AbsoluteY }),
        0xDD => Some(OpCode { code: 0xDD, mnemonic: "CMP", len: 3, cycles: 4, mode: AddressingMode::AbsoluteX }),
        0xDE => Some(OpCode { code: 0xDE, mnemonic: "DEC", len: 3, cycles: 7, mode: AddressingMode::AbsoluteX }),
        0xE0 => Some(OpCode { code: 0xE0, mnemonic: "CPX", len: 2, cycles: 2, mode: AddressingMode::Immediate }),
        0xE1 => Some(OpCode { code: 0xE1, mnemonic: "SBC", len: 2, cycles: 6, mode: AddressingMode::IndirectX }),
        0xE4 => Some(OpCode { code: 0xE4, mnemonic: "CPX", len: 2, cycles: 3, mode: AddressingMode::ZeroPage }),
        0xE5 => Some(OpCode { code: 0xE5, mnemonic: "SBC", len: 2, cycles: 3, mode: AddressingMode::ZeroPage }),
        0xE6 => Some(OpCode { code: 0xE6, mnemonic: "INC", len: 2, cycles: 5, mode: AddressingMode::ZeroPage }),
        0xE8 => Some(OpCode { code: 0xE8, mnemonic: "INX", len: 1, cycles: 2, mode: AddressingMode::NoneAddressing }),
        0xE9 => Some(OpCode { code: 0xE9, mnemonic: "SBC", len: 2, cycles: 2, mode: AddressingMode::Immediate }),
        0xEA => Some(OpCode { code: 0xEA, mnemonic: "NOP", len: 1, cycles: 2, mode: AddressingMode::NoneAddressing }),
        0xEC => Some(OpCode { code: 0xEC, mnemonic: "CPX", len: 3, cycles: 4, mode: AddressingMode::Absolute }),
        0xED => Some(OpCode { code: 0xED, mnemonic: "SBC", len: 3, cycles: 4, mode: AddressingMode::Absolute }),
        0xEE => Some(OpCode { code: 0xEE, mnemonic: "INC", len: 3, cycles: 6, mode: AddressingMode::Absolute }),
        0xF0 => Some(OpCode { code: 0xF0, mnemonic: "BEQ", len: 2, cycles: 2, mode: AddressingMode::NoneAddressing }),
        0xF1 => Some(OpCode { code: 0xF1, mnemonic: "SBC", len: 2, cycles: 5, mode: AddressingMode::IndirectY }),
        0xF5 => Some(OpCode { code: 0xF5, mnemonic: "SBC", len: 2, cycles: 4, mode: AddressingMode::ZeroPageX }),
        0xF6 => Some(OpCode { code: 0xF6, mnemonic: "INC", len: 2, cycles: 6, mode: AddressingMode::ZeroPageX }),
        0xF8 => Some(OpCode { code: 0xF8, mnemonic: "SED", len: 1, cycles: 2, mode: AddressingMode::NoneAddressing }),
        0xF9 => Some(OpCode { code: 0xF9, mnemonic: "SBC", len: 3, cycles: 4, mode: AddressingMode::AbsoluteY }),
        0xFD => Some(OpCode { code: 0xFD, mnemonic: "SBC", len: 3, cycles: 4, mode: AddressingMode::AbsoluteX }),
        0xFE => Some(OpCode { code: 0xFE, mnemonic: "INC", len: 3, cycles: 7, mode: AddressingMode::AbsoluteX }),
        _ => None,
    }
}

/// Looks an opcode up in the table.
pub fn lookup(code: u8) -> (found: Option<OpCode>)
    ensures
        found == opcode(code),
{
    match code {
        0x00 => Some(OpCode { code: 0x00, mnemonic: "BRK", len: 1, cycles: 7, mode: AddressingMode::NoneAddressing }),
        0x01 => Some(OpCode { code: 0x01, mnemonic: "ORA", len: 2, cycles: 6, mode: AddressingMode::IndirectX }),
        0x05 => Some(OpCode { code: 0x05, mnemonic: "ORA", len: 2, cycles: 3, mode: AddressingMode::ZeroPage }),
        0x06 => Some(OpCode { code: 0x06, mnemonic: "ASL", len: 2, cycles: 5, mode: AddressingMode::ZeroPage }),
        0x08 => Some(OpCode { code: 0x08, mnemonic: "PHP", len: 1, cycles: 3, mode: AddressingMode::NoneAddressing }),
        0x09 => Some(OpCode { code: 0x09, mnemonic: "ORA", len: 2, cycles: 2, mode: AddressingMode::Immediate }),
        0x0A => Some(OpCode { code: 0x0A, mnemonic: "ASL", len: 1, cycles: 2, mode: AddressingMode::NoneAddressing }),
        0x0D => Some(OpCode { code: 0x0D, mnemonic: "ORA", len: 3, cycles: 4, mode: AddressingMode::Absolute }),
        0x0E => Some(OpCode { code: 0x0E, mnemonic: "ASL", len: 3, cycles: 6, mode: AddressingMode::Absolute }),
        0x10 => Some(OpCode { code: 0x10, mnemonic: "BPL", len: 2, cycles: 2, mode: AddressingMode::NoneAddressing }),
        0x11 => Some(OpCode { code: 0x11, mnemonic: "ORA", len: 2, cycles: 5, mode: AddressingMode::IndirectY }),
        0x15 => Some(OpCode { code: 0x15, mnemonic: "ORA", len: 2, cycles: 4, mode: AddressingMode::ZeroPageX }),
        0x16 => Some(OpCode { code: 0x16, mnemonic: "ASL", len: 2, cycles: 6, mode: AddressingMode::ZeroPageX }),
        0x18 => Some(OpCode { code: 0x18, mnemonic: "CLC", len: 1, cycles: 2, mode: AddressingMode::NoneAddressing }),
        0x19 => Some(OpCode { code: 0x19, mnemonic: "ORA", len: 3, cycles: 4, mode: AddressingMode::AbsoluteY }),
        0x1D => Some(OpCode { code: 0x1D, mnemonic: "ORA", len: 3, cycles: 4, mode: AddressingMode::AbsoluteX }),
        0x1E => Some(OpCode { code: 0x1E, mnemonic: "ASL", len: 3, cycles: 7, mode: AddressingMode::AbsoluteX }),
        0x20 => Some(OpCode { code: 0x20, mnemonic: "JSR", len: 3, cycles: 6, mode: AddressingMode::NoneAddressing }),
        0x21 => Some(OpCode { code: 0x21, mnemonic: "AND", len: 2, cycles: 6, mode: AddressingMode::IndirectX }),
        0x24 => Some(OpCode { code: 0x24, mnemonic: "BIT", len: 2, cycles: 3, mode: AddressingMode::ZeroPage }),
        0x25 => Some(OpCode { code: 0x25, mnemonic: "AND", len: 2, cycles: 3, mode: AddressingMode::ZeroPage }),
        0x26 => Some(OpCode { code: 0x26, mnemonic: "ROL", len: 2, cycles: 5, mode: AddressingMode::ZeroPage }),
        0x28 => Some(OpCode { code: 0x28, mnemonic: "PLP", len: 1, cycles: 4, mode: AddressingMode::NoneAddressing }),
        0x29 => Some(OpCode { code: 0x29, mnemonic: "AND", len: 2, cycles: 2, mode: AddressingMode::Immediate }),
        0x2A => Some(OpCode { code: 0x2A, mnemonic: "ROL", len: 1, cycles: 2, mode: AddressingMode::NoneAddressing }),
        0x2C => Some(OpCode { code: 0x2C, mnemonic: "BIT", len: 3, cycles: 4, mode: AddressingMode::Absolute }),
        0x2D => Some(OpCode { code: 0x2D, mnemonic: "AND", len: 3, cycles: 4, mode: AddressingMode::Absolute }),
        0x2E => Some(OpCode { code: 0x2E, mnemonic: "ROL", len: 3, cycles: 6, mode: AddressingMode::Absolute }),
        0x30 => Some(OpCode { code: 0x30, mnemonic: "BMI", len: 2, cycles: 2, mode: AddressingMode::NoneAddressing }),
        0x31 => Some(OpCode { code: 0x31, mnemonic: "AND", len: 2, cycles: 5, mode: AddressingMode::IndirectY }),
        0x35 => Some(OpCode { code: 0x35, mnemonic: "AND", len: 2, cycles: 4, mode: AddressingMode::ZeroPageX }),
        0x36 => Some(OpCode { code: 0x36, mnemonic: "ROL", len: 2, cycles: 6, mode: AddressingMode::ZeroPageX }),
        0x38 => Some(OpCode { code: 0x38, mnemonic: "SEC", len: 1, cycles: 2, mode: AddressingMode::NoneAddressing }),
        0x39 => Some(OpCode { code: 0x39, mnemonic: "AND", len: 3, cycles: 4, mode: AddressingMode::AbsoluteY }),
        0x3D => Some(OpCode { code: 0x3D, mnemonic: "AND", len: 3, cycles: 4, mode: AddressingMode::AbsoluteX }),
        0x3E => Some(OpCode { code: 0x3E, mnemonic: "ROL", len: 3, cycles: 7, mode: AddressingMode::AbsoluteX }),
        0x40 => Some(OpCode { code: 0x40, mnemonic: "RTI", len: 1, cycles: 6, mode: AddressingMode::NoneAddressing }),
        0x41 => Some(OpCode { code: 0x41, mnemonic: "EOR", len: 2, cycles: 6, mode: AddressingMode::IndirectX }),
        0x45 => Some(OpCode { code: 0x45, mnemonic: "EOR", len: 2, cycles: 3, mode: AddressingMode::ZeroPage }),
        0x46 => Some(OpCode { code: 0x46, mnemonic: "LSR", len: 2, cycles: 5, mode: AddressingMode::ZeroPage }),
        0x48 => Some(OpCode { code: 0x48, mnemonic: "PHA", len: 1, cycles: 3, mode: AddressingMode::NoneAddressing }),
        0x49 => Some(OpCode { code: 0x49, mnemonic: "EOR", len: 2, cycles: 2, mode: AddressingMode::Immediate }),
        0x4A => Some(OpCode { code: 0x4A, mnemonic: "LSR", len: 1, cycles: 2, mode: AddressingMode::NoneAddressing }),
        0x4C => Some(OpCode { code: 0x4C, mnemonic: "JMP", len: 3, cycles: 3, mode: AddressingMode::NoneAddressing }),
        0x4D => Some(OpCode { code: 0x4D, mnemonic: "EOR", len: 3, cycles: 4, mode: AddressingMode::Absolute }),
        0x4E => Some(OpCode { code: 0x4E, mnemonic: "LSR", len: 3, cycles: 6, mode: AddressingMode::Absolute }),
        0x50 => Some(OpCode { code: 0x50, mnemonic: "BVC", len: 2, cycles: 2, mode: AddressingMode::NoneAddressing }),
        0x51 => Some(OpCode { code: 0x51, mnemonic: "EOR", len: 2, cycles: 5, mode: AddressingMode::IndirectY }),
        0x55 => Some(OpCode { code: 0x55, mnemonic: "EOR", len: 2, cycles: 4, mode: AddressingMode::ZeroPageX }),
        0x56 => Some(OpCode { code: 0x56, mnemonic: "LSR", len: 2, cycles: 6, mode: AddressingMode::ZeroPageX }),
        0x58 => Some(OpCode { code: 0x58, mnemonic: "CLI", len: 1, cycles: 2, mode: AddressingMode::NoneAddressing }),
        0x59 => Some(OpCode { code: 0x59, mnemonic: "EOR", len: 3, cycles: 4, mode: AddressingMode::AbsoluteY }),
        0x5D => Some(OpCode { code: 0x5D, mnemonic: "EOR", len: 3, cycles: 4, mode: AddressingMode::AbsoluteX }),
        0x5E => Some(OpCode { code: 0x5E, mnemonic: "LSR", len: 3, cycles: 7, mode: AddressingMode::AbsoluteX }),
        0x60 => Some(OpCode { code: 0x60, mnemonic: "RTS", len: 1, cycles: 6, mode: AddressingMode::NoneAddressing }),
        0x61 => Some(OpCode { code: 0x61, mnemonic: "ADC", len: 2, cycles: 6, mode: AddressingMode::IndirectX }),
        0x65 => Some(OpCode { code: 0x65, mnemonic: "ADC", len: 2, cycles: 3, mode: AddressingMode::ZeroPage }),
        0x66 => Some(OpCode { code: 0x66, mnemonic: "ROR", len: 2, cycles: 5, mode: AddressingMode::ZeroPage }),
        0x68 => Some(OpCode { code: 0x68, mnemonic: "PLA", len: 1, cycles: 4, mode: AddressingMode::NoneAddressing }),
        0x69 => Some(OpCode { code: 0x69, mnemonic: "ADC", len: 2, cycles: 2, mode: AddressingMode::Immediate }),
        0x6A => Some(OpCode { code: 0x6A, mnemonic: "ROR", len: 1, cycles: 2, mode: AddressingMode::NoneAddressing }),
        0x6C => Some(OpCode { code: 0x6C, mnemonic: "JMP", len: 3, cycles: 5, mode: AddressingMode::NoneAddressing }),
        0x6D => Some(OpCode { code: 0x6D, mnemonic: "ADC", len: 3, cycles: 4, mode: AddressingMode::Absolute }),
        0x6E => Some(OpCode { code: 0x6E, mnemonic: "ROR", len: 3, cycles: 6, mode: AddressingMode::Absolute }),
        0x70 => Some(OpCode { code: 0x70, mnemonic: "BVS", len: 2, cycles: 2, mode: AddressingMode::NoneAddressing }),
        0x71 => Some(OpCode { code: 0x71, mnemonic: "ADC", len: 2, cycles: 5, mode: AddressingMode::IndirectY }),
        0x75 => Some(OpCode { code: 0x75, mnemonic: "ADC", len: 2, cycles: 4, mode: AddressingMode::ZeroPageX }),
        0x76 => Some(OpCode { code: 0x76, mnemonic: "ROR", len: 2, cycles: 6, mode: AddressingMode::ZeroPageX }),
        0x78 => Some(OpCode { code: 0x78, mnemonic: "SEI", len: 1, cycles: 2, mode: AddressingMode::NoneAddressing }),
        0x79 => Some(OpCode { code: 0x79, mnemonic: "ADC", len: 3, cycles: 4, mode: AddressingMode::AbsoluteY }),
        0x7D => Some(OpCode { code: 0x7D, mnemonic: "ADC", len: 3, cycles: 4, mode: AddressingMode::AbsoluteX }),
        0x7E => Some(OpCode { code: 0x7E, mnemonic: "ROR", len: 3, cycles: 7, mode: AddressingMode::AbsoluteX }),
        0x81 => Some(OpCode { code: 0x81, mnemonic: "STA", len: 2, cycles: 6, mode: AddressingMode::IndirectX }),
        0x84 => Some(OpCode { code: 0x84, mnemonic: "STY", len: 2, cycles: 3, mode: AddressingMode::ZeroPage }),
        0x85 => Some(OpCode { code: 0x85, mnemonic: "STA", len: 2, cycles: 3, mode: AddressingMode::ZeroPage }),
        0x86 => Some(OpCode { code: 0x86, mnemonic: "STX", len: 2, cycles: 3, mode: AddressingMode::ZeroPage }),
        0x88 => Some(OpCode { code: 0x88, mnemonic: "DEY", len: 1, cycles: 2, mode: AddressingMode::NoneAddressing }),
        0x8A => Some(OpCode { code: 0x8A, mnemonic: "TXA", len: 1, cycles: 2, mode: AddressingMode::NoneAddressing }),
        0x8C => Some(OpCode { code: 0x8C, mnemonic: "STY", len: 3, cycles: 4, mode: AddressingMode::Absolute }),
        0x8D => Some(OpCode { code: 0x8D, mnemonic: "STA", len: 3, cycles: 4, mode: AddressingMode::Absolute }),
        0x8E => Some(OpCode { code: 0x8E, mnemonic: "STX", len: 3, cycles: 4, mode: AddressingMode::Absolute }),
        0x90 => Some(OpCode { code: 0x90, mnemonic: "BCC", len: 2, cycles: 2, mode: AddressingMode::NoneAddressing }),
        0x91 => Some(OpCode { code: 0x91, mnemonic: "STA", len: 2, cycles: 6, mode: AddressingMode::IndirectY }),
        0x94 => Some(OpCode { code: 0x94, mnemonic: "STY", len: 2, cycles: 4, mode: AddressingMode::ZeroPageX }),
        0x95 => Some(OpCode { code: 0x95, mnemonic: "STA", len: 2, cycles: 4, mode: AddressingMode::ZeroPageX }),
        0x96 => Some(OpCode { code: 0x96, mnemonic: "STX", len: 2, cycles: 4, mode: AddressingMode::ZeroPageY }),
        0x98 => Some(OpCode { code: 0x98, mnemonic: "TYA", len: 1, cycles: 2, mode: AddressingMode::NoneAddressing }),
        0x99 => Some(OpCode { code: 0x99, mnemonic: "STA", len: 3, cycles: 5, mode: AddressingMode::AbsoluteY }),
        0x9A => Some(OpCode { code: 0x9A, mnemonic: "TXS", len: 1, cycles: 2, mode: AddressingMode::NoneAddressing }),
        0x9D => Some(OpCode { code: 0x9D, mnemonic: "STA", len: 3, cycles: 5, mode: AddressingMode::AbsoluteX }),
        0xA0 => Some(OpCode { code: 0xA0, mnemonic: "LDY", len: 2, cycles: 2, mode: AddressingMode::Immediate }),
        0xA1 => Some(OpCode { code: 0xA1, mnemonic: "LDA", len: 2, cycles: 6, mode: AddressingMode::IndirectX }),
        0xA2 => Some(OpCode { code: 0xA2, mnemonic: "LDX", len: 2, cycles: 2, mode: AddressingMode::Immediate }),
        0xA4 => Some(OpCode { code: 0xA4, mnemonic: "LDY", len: 2, cycles: 3, mode: AddressingMode::ZeroPage }),
        0xA5 => Some(OpCode { code: 0xA5, mnemonic: "LDA", len: 2, cycles: 3, mode: AddressingMode::ZeroPage }),
        0xA6 => Some(OpCode { code: 0xA6, mnemonic: "LDX", len: 2, cycles: 3, mode: AddressingMode::ZeroPage }),
        0xA8 => Some(OpCode { code: 0xA8, mnemonic: "TAY", len: 1, cycles: 2, mode: AddressingMode::NoneAddressing }),
        0xA9 => Some(OpCode { code: 0xA9, mnemonic: "LDA", len: 2, cycles: 2, mode: AddressingMode::Immediate }),
        0xAA => Some(OpCode { code: 0xAA, mnemonic: "TAX", len: 1, cycles: 2, mode: AddressingMode::NoneAddressing }),
        0xAC => Some(OpCode { code: 0xAC, mnemonic: "LDY", len: 3, cycles: 4, mode: AddressingMode::Absolute }),
        0xAD => Some(OpCode { code: 0xAD, mnemonic: "LDA", len: 3, cycles: 4, mode: AddressingMode::Absolute }),
        0xAE => Some(OpCode { code: 0xAE, mnemonic: "LDX", len: 3, cycles: 4, mode: AddressingMode::Absolute }),
        0xB0 => Some(OpCode { code: 0xB0, mnemonic: "BCS", len: 2, cycles: 2, mode: AddressingMode::NoneAddressing }),
        0xB1 => Some(OpCode { code: 0xB1, mnemonic: "LDA", len: 2, cycles: 5, mode: AddressingMode::IndirectY }),
        0xB4 => Some(OpCode { code: 0xB4, mnemonic: "LDY", len: 2, cycles: 4, mode: AddressingMode::ZeroPageX }),
        0xB5 => Some(OpCode { code: 0xB5, mnemonic: "LDA", len: 2, cycles: 4, mode: AddressingMode::ZeroPageX }),
        0xB6 => Some(OpCode { code: 0xB6, mnemonic: "LDX", len: 2, cycles: 4, mode: AddressingMode::ZeroPageY }),
        0xB8 => Some(OpCode { code: 0xB8, mnemonic: "CLV", len: 1, cycles: 2, mode: AddressingMode::NoneAddressing }),
        0xB9 => Some(OpCode { code: 0xB9, mnemonic: "LDA", len: 3, cycles: 4, mode: AddressingMode::AbsoluteY }),
        0xBA => Some(OpCode { code: 0xBA, mnemonic: "TSX", len: 1, cycles: 2, mode: AddressingMode::NoneAddressing }),
        0xBC => Some(OpCode { code: 0xBC, mnemonic: "LDY", len: 3, cycles: 4, mode: AddressingMode::AbsoluteX }),
        0xBD => Some(OpCode { code: 0xBD, mnemonic: "LDA", len: 3, cycles: 4, mode: AddressingMode::AbsoluteX }),
        0xBE => Some(OpCode { code: 0xBE, mnemonic: "LDX", len: 3, cycles: 4, mode: AddressingMode::AbsoluteY }),
        0xC0 => Some(OpCode { code: 0xC0, mnemonic: "CPY", len: 2, cycles: 2, mode: AddressingMode::Immediate }),
        0xC1 => Some(OpCode { code: 0xC1, mnemonic: "CMP", len: 2, cycles: 6, mode: AddressingMode::IndirectX }),
        0xC4 => Some(OpCode { code: 0xC4, mnemonic: "CPY", len: 2, cycles: 3, mode: AddressingMode::ZeroPage }),
        0xC5 => Some(OpCode { code: 0xC5, mnemonic: "CMP", len: 2, cycles: 3, mode: AddressingMode::ZeroPage }),
        0xC6 => Some(OpCode { code: 0xC6, mnemonic: "DEC", len: 2, cycles: 5, mode: AddressingMode::ZeroPage }),
        0xC8 => Some(OpCode { code: 0xC8, mnemonic: "INY", len: 1, cycles: 2, mode: AddressingMode::NoneAddressing }),
        0xC9 => Some(OpCode { code: 0xC9, mnemonic: "CMP", len: 2, cycles: 2, mode: AddressingMode::Immediate }),
        0xCA => Some(OpCode { code: 0xCA, mnemonic: "DEX", len: 1, cycles: 2, mode: AddressingMode::NoneAddressing }),
        0xCC => Some(OpCode { code: 0xCC, mnemonic: "CPY", len: 3, cycles: 4, mode: AddressingMode::Absolute }),
        0xCD => Some(OpCode { code: 0xCD, mnemonic: "CMP", len: 3, cycles: 4, mode: AddressingMode::Absolute }),
        0xCE => Some(OpCode { code: 0xCE, mnemonic: "DEC", len: 3, cycles: 6, mode: AddressingMode::Absolute }),
        0xD0 => Some(OpCode { code: 0xD0, mnemonic: "BNE", len: 2, cycles: 2, mode: AddressingMode::NoneAddressing }),
        0xD1 => Some(OpCode { code: 0xD1, mnemonic: "CMP", len: 2, cycles: 5, mode: AddressingMode::IndirectY }),
        0xD5 => Some(OpCode { code: 0xD5, mnemonic: "CMP", len: 2, cycles: 4, mode: AddressingMode::ZeroPageX }),
        0xD6 => Some(OpCode { code: 0xD6, mnemonic: "DEC", len: 2, cycles: 6, mode: AddressingMode::ZeroPageX }),
        0xD8 => Some(OpCode { code: 0xD8, mnemonic: "CLD", len: 1, cycles: 2, mode: AddressingMode::NoneAddressing }),
        0xD9 => Some(OpCode { code: 0xD9, mnemonic: "CMP", len: 3, cycles: 4, mode: AddressingMode::AbsoluteY }),
        0xDD => Some(OpCode { code: 0xDD, mnemonic: "CMP", len: 3, cycles: 4, mode: AddressingMode::AbsoluteX }),
        0xDE => Some(OpCode { code: 0xDE, mnemonic: "DEC", len: 3, cycles: 7, mode: AddressingMode::AbsoluteX }),
        0xE0 => Some(OpCode { code: 0xE0, mnemonic: "CPX", len: 2, cycles: 2, mode: AddressingMode::Immediate }),
        0xE1 => Some(OpCode { code: 0xE1, mnemonic: "SBC", len: 2, cycles: 6, mode: AddressingMode::IndirectX }),
        0xE4 => Some(OpCode { code: 0xE4, mnemonic: "CPX", len: 2, cycles: 3, mode: AddressingMode::ZeroPage }),
        0xE5 => Some(OpCode { code: 0xE5, mnemonic: "SBC", len: 2, cycles: 3, mode: AddressingMode::ZeroPage }),
        0xE6 => Some(OpCode { code: 0xE6, mnemonic: "INC", len: 2, cycles: 5, mode: AddressingMode::ZeroPage }),
        0xE8 => Some(OpCode { code: 0xE8, mnemonic: "INX", len: 1, cycles: 2, mode: AddressingMode::NoneAddressing }),
        0xE9 => Some(OpCode { code: 0xE9, mnemonic: "SBC", len: 2, cycles: 2, mode: AddressingMode::Immediate }),
        0xEA => Some(OpCode { code: 0xEA, mnemonic: "NOP", len: 1, cycles: 2, mode: AddressingMode::NoneAddressing }),
        0xEC => Some(OpCode { code: 0xEC, mnemonic: "CPX", len: 3, cycles: 4, mode: AddressingMode::Absolute }),
        0xED => Some(OpCode { code: 0xED, mnemonic: "SBC", len: 3, cycles: 4, mode: AddressingMode::Absolute }),
        0xEE => Some(OpCode { code: 0xEE, mnemonic: "INC", len: 3, cycles: 6, mode: AddressingMode::Absolute }),
        0xF0 => Some(OpCode { code: 0xF0, mnemonic: "BEQ", len: 2, cycles: 2, mode: AddressingMode::NoneAddressing }),
        0xF1 => Some(OpCode { code: 0xF1, mnemonic: "SBC", len: 2, cycles: 5, mode: AddressingMode::IndirectY }),
        0xF5 => Some(OpCode { code: 0xF5, mnemonic: "SBC", len: 2, cycles: 4, mode: AddressingMode::ZeroPageX }),
        0xF6 => Some(OpCode { code: 0xF6, mnemonic: "INC", len: 2, cycles: 6, mode: AddressingMode::ZeroPageX }),
        0xF8 => Some(OpCode { code: 0xF8, mnemonic: "SED", len: 1, cycles: 2, mode: AddressingMode::NoneAddressing }),
        0xF9 => Some(OpCode { code: 0xF9, mnemonic: "SBC", len: 3, cycles: 4, mode: AddressingMode::AbsoluteY }),
        0xFD => Some(OpCode { code: 0xFD, mnemonic: "SBC", len: 3, cycles: 4, mode: AddressingMode::AbsoluteX }),
        0xFE => Some(OpCode { code: 0xFE, mnemonic: "INC", len: 3, cycles: 7, mode: AddressingMode::AbsoluteX }),
        _ => None,
    }
}

/// Every row is filed under its own opcode, is one to three bytes long, and
/// is three bytes long only where its operand is a 16-bit word.
pub proof fn lemma_rows(code: u8)
    requires
        opcode(code) is Some,
    ensures
        opcode(code).unwrap().code == code,
        1 <= opcode(code).unwrap().len <= 3,
        opcode(code).unwrap().mode.operand_bytes() + 1 <= opcode(code).unwrap().len,
{
}

} // verus!
