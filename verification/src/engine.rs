//! The fetch-decode-execute loop: control-flow instructions, the dispatch
//! from opcode to instruction, one step of the machine, and the run loop.
use vstd::prelude::*;
use crate::cpu::{AddressingMode, CpuError, CPU, MAX_PROGRAM_LEN, MEM_SIZE, word, word_of, wrap8};
use crate::flags::{
    CpuFlags, CARRY, DECIMAL_MODE, INTERRUPT_DISABLE, NEGATIVE, OVERFLOW, ZERO,
};
use crate::instructions::effect;
use crate::opcodes::{lemma_rows, lookup, opcode, OpCode};

verus! {

/// Whether the machine goes on after an instruction.
#[derive(Clone, Copy, Debug, PartialEq, Eq, Structural)]
pub enum Flow {
    /// The instruction was executed and the next one is due.
    Continue,
    /// The halt opcode was decoded.
    Halt,
}

/// The number of instructions that one call of `run` executes at most. A
/// machine that is still running then is handed back with `Flow::Continue`,
/// and a further call of `run` goes on from where it stands.
pub const INSTRUCTION_BUDGET: u64 = 0xFFFF_FFFF_FFFF_FFFF;

/// The machine of a result that also carries a byte.
pub open spec fn machine_of(r: Result<(CPU, u8), CpuError>) -> Result<CPU, CpuError> {
    match r {
        Ok(pair) => Ok(pair.0),
        Err(e) => Err(e),
    }
}

/// Drops the byte that a read-modify-write instruction returns.
pub fn discard(r: Result<u8, CpuError>) -> (out: Result<(), CpuError>)
    ensures
        match r {
            Ok(_) => out is Ok,
            Err(e) => out == Err::<(), CpuError>(e),
        },
{
    match r {
        Ok(_) => Ok(()),
        Err(e) => Err(e),
    }
}

impl CPU {
    /// JMP absolute: the program counter becomes the word that follows the
    /// opcode.
    pub open spec fn jmp_absolute_spec(self) -> Result<CPU, CpuError> {
        match self.fetch16(self.pc) {
            Ok(dest) => Ok(CPU { pc: dest, ..self }),
            Err(e) => Err(e),
        }
    }

    /// JMP indirect: the program counter becomes the word that the pointer
    /// after the opcode points at. Where the pointer's low byte is 0xFF, the
    /// high byte of that word is taken from the start of the pointer's own
    /// page, not from the next page.
    pub open spec fn jmp_indirect_spec(self) -> Result<CPU, CpuError> {
        match self.fetch16(self.pc) {
            Ok(ptr) => if ptr % 0x100 == 0xFF {
                match self.fetch(ptr) {
                    Ok(lo) => Ok(CPU { pc: word_of(lo, self.peek(ptr - 0xFF)), ..self }),
                    Err(e) => Err(e),
                }
            } else {
                match self.fetch16(ptr) {
                    Ok(dest) => Ok(CPU { pc: dest, ..self }),
                    Err(e) => Err(e),
                }
            },
            Err(e) => Err(e),
        }
    }

    /// JSR: the address of the last byte of the instruction is pushed, then
    /// the program counter becomes the word that follows the opcode, read
    /// after the push.
    pub open spec fn jsr_spec(self) -> Result<CPU, CpuError> {
        match self.fetch16(self.pc) {
            Ok(_) => {
                let called = self.pushed16((self.pc + 1) as u16);
                Ok(CPU { pc: called.peek16(self.pc as int), ..called })
            },
            Err(e) => Err(e),
        }
    }

    /// RTS: a word is pulled and the program counter becomes the address
    /// after it.
    pub open spec fn rts_spec(self) -> Result<CPU, CpuError> {
        if self.stack_top16() < 0xFFFF {
            Ok(CPU { pc: (self.stack_top16() + 1) as u16, ..self.popped().popped() })
        } else {
            Err(CpuError::OutOfRangeAddress)
        }
    }

    /// RTI: the status is pulled, with Break cleared and Break2 set, and then
    /// the program counter.
    pub open spec fn rti_spec(self) -> CPU {
        CPU {
            status: CpuFlags::pulled(self.stack_top()),
            pc: self.popped().stack_top16(),
            ..self.popped().popped().popped()
        }
    }

    /// The instruction with opcode `code`, applied to a machine whose program
    /// counter stands on the byte after the opcode. The program counter of the
    /// result has moved only where the instruction itself set it.
    pub open spec fn execute_spec(self, code: u8, mode: AddressingMode) -> Result<CPU, CpuError> {
        match code {
            // LDA
            0xA9 | 0xA5 | 0xB5 | 0xAD | 0xBD | 0xB9 | 0xA1 | 0xB1 => self.lda_spec(mode),
            // TAX
            0xAA => Ok(self.set_x(self.reg_a)),
            // INX
            0xE8 => Ok(self.set_x(wrap8(self.reg_x + 1))),
            // BRK
            0x00 => Ok(self),
            // CLD
            0xD8 => Ok(self.flag(DECIMAL_MODE, false)),
            // CLI
            0x58 => Ok(self.flag(INTERRUPT_DISABLE, false)),
            // CLV
            0xB8 => Ok(self.flag(OVERFLOW, false)),
            // CLC
            0x18 => Ok(self.flag(CARRY, false)),
            // SEC
            0x38 => Ok(self.flag(CARRY, true)),
            // SEI
            0x78 => Ok(self.flag(INTERRUPT_DISABLE, true)),
            // SED
            0xF8 => Ok(self.flag(DECIMAL_MODE, true)),
            // PHA
            0x48 => Ok(self.pushed(self.reg_a)),
            // PLA
            0x68 => Ok(self.pla_spec()),
            // PHP
            0x08 => Ok(self.php_spec()),
            // PLP
            0x28 => Ok(self.plp_spec()),
            // ADC
            0x69 | 0x65 | 0x75 | 0x6D | 0x7D | 0x79 | 0x61 | 0x71 => self.adc_spec(mode),
            // SBC
            0xE9 | 0xE5 | 0xF5 | 0xED | 0xFD | 0xF9 | 0xE1 | 0xF1 => self.sbc_spec(mode),
            // AND
            0x29 | 0x25 | 0x35 | 0x2D | 0x3D | 0x39 | 0x21 | 0x31 => self.and_spec(mode),
            // EOR
            0x49 | 0x45 | 0x55 | 0x4D | 0x5D | 0x59 | 0x41 | 0x51 => self.eor_spec(mode),
            // ORA
            0x09 | 0x05 | 0x15 | 0x0D | 0x1D | 0x19 | 0x01 | 0x11 => self.ora_spec(mode),
            // LSR A
            0x4A => Ok(self.right_a(false)),
            // LSR
            0x46 | 0x56 | 0x4E | 0x5E => machine_of(self.right_spec(mode, false)),
            // ASL A
            0x0A => Ok(self.left_a(false)),
            // ASL
            0x06 | 0x16 | 0x0E | 0x1E => machine_of(self.left_spec(mode, false)),
            // ROL A
            0x2A => Ok(self.left_a(self.status.has(CARRY))),
            // ROL
            0x26 | 0x36 | 0x2E | 0x3E => machine_of(self.left_spec(mode, self.status.has(CARRY))),
            // ROR A
            0x6A => Ok(self.right_a(self.status.has(CARRY))),
            // ROR
            0x66 | 0x76 | 0x6E | 0x7E => machine_of(self.right_spec(mode, self.status.has(CARRY))),
            // INC
            0xE6 | 0xF6 | 0xEE | 0xFE => machine_of(self.inc_spec(mode)),
            // INY
            0xC8 => Ok(self.set_y(wrap8(self.reg_y + 1))),
            // DEC
            0xC6 | 0xD6 | 0xCE | 0xDE => machine_of(self.dec_spec(mode)),
            // DEX
            0xCA => Ok(self.set_x(wrap8(self.reg_x - 1))),
            // DEY
            0x88 => Ok(self.set_y(wrap8(self.reg_y - 1))),
            // CMP
            0xC9 | 0xC5 | 0xD5 | 0xCD | 0xDD | 0xD9 | 0xC1 | 0xD1 => self.compare_spec(mode, self.reg_a),
            // CPY
            0xC0 | 0xC4 | 0xCC => self.compare_spec(mode, self.reg_y),
            // CPX
            0xE0 | 0xE4 | 0xEC => self.compare_spec(mode, self.reg_x),
            // JMP absolute
            0x4C => self.jmp_absolute_spec(),
            // JMP indirect
            0x6C => self.jmp_indirect_spec(),
            // JSR
            0x20 => self.jsr_spec(),
            // RTS
            0x60 => self.rts_spec(),
            // RTI
            0x40 => Ok(self.rti_spec()),
            // BNE
            0xD0 => self.branch_spec(!self.status.has(ZERO)),
            // BVS
            0x70 => self.branch_spec(self.status.has(OVERFLOW)),
            // BVC
            0x50 => self.branch_spec(!self.status.has(OVERFLOW)),
            // BPL
            0x10 => self.branch_spec(!self.status.has(NEGATIVE)),
            // BMI
            0x30 => self.branch_spec(self.status.has(NEGATIVE)),
            // BEQ
            0xF0 => self.branch_spec(self.status.has(ZERO)),
            // BCS
            0xB0 => self.branch_spec(self.status.has(CARRY)),
            // BCC
            0x90 => self.branch_spec(!self.status.has(CARRY)),
            // BIT
            0x24 | 0x2C => self.bit_spec(mode),
            // STA
            0x85 | 0x95 | 0x8D | 0x9D | 0x99 | 0x81 | 0x91 => self.store_spec(mode, self.reg_a),
            // STX
            0x86 | 0x96 | 0x8E => self.store_spec(mode, self.reg_x),
            // STY
            0x84 | 0x94 | 0x8C => self.store_spec(mode, self.reg_y),
            // LDX
            0xA2 | 0xA6 | 0xB6 | 0xAE | 0xBE => self.ldx_spec(mode),
            // LDY
            0xA0 | 0xA4 | 0xB4 | 0xAC | 0xBC => self.ldy_spec(mode),
            // NOP
            0xEA => Ok(self),
            // TAY
            0xA8 => Ok(self.set_y(self.reg_a)),
            // TSX
            0xBA => Ok(self.set_x(self.sp)),
            // TXA
            0x8A => Ok(self.set_a(self.reg_x)),
            // TXS
            0x9A => Ok(CPU { sp: self.reg_x, ..self }),
            // TYA
            0x98 => Ok(self.set_a(self.reg_y)),
            _ => Err(CpuError::UnrecognizedOpcode),
        }
    }

    /// The fetch: the row of the opcode at the program counter. The opcode
    /// must be in the table, and the address after the instruction's last
    /// byte must still be a 16-bit address: else the fetch is an
    /// `OutOfRangeAddress` fault.
    pub open spec fn decode_spec(self) -> Result<OpCode, CpuError> {
        match self.fetch(self.pc) {
            Err(e) => Err(e),
            Ok(code) => match opcode(code) {
                None => Err(CpuError::UnrecognizedOpcode),
                Some(op) => if self.pc + op.len > 0xFFFF {
                    Err(CpuError::OutOfRangeAddress)
                } else {
                    Ok(op)
                },
            },
        }
    }

    /// The dispatch, on a machine whose program counter stands on the byte
    /// after the opcode. The halt opcode stops the machine. After any other
    /// instruction that left the program counter where it stood, the program
    /// counter is moved past the operand bytes.
    pub open spec fn perform_spec(self, op: OpCode) -> Result<(CPU, Flow), CpuError> {
        if op.code == 0x00 {
            Ok((self, Flow::Halt))
        } else {
            match self.execute_spec(op.code, op.mode) {
                Err(e) => Err(e),
                Ok(next) => if next.pc == self.pc {
                    Ok((CPU { pc: (self.pc + op.len - 1) as u16, ..next }, Flow::Continue))
                } else {
                    Ok((next, Flow::Continue))
                },
            }
        }
    }

    /// One instruction: the fetch, the program counter moved past the opcode,
    /// and the dispatch.
    pub open spec fn step_spec(self) -> Result<(CPU, Flow), CpuError> {
        match self.decode_spec() {
            Err(e) => Err(e),
            Ok(op) => (CPU { pc: (self.pc + 1) as u16, ..self }).perform_spec(op),
        }
    }

    /// The machine after at most `budget` steps, with how it stopped: on the
    /// halt opcode, on a fault (the machine is then as it was before the
    /// faulting instruction), or still running when the budget was spent.
    pub open spec fn run_spec(self, budget: nat) -> (CPU, Result<Flow, CpuError>)
        decreases budget,
    {
        if budget == 0 {
            (self, Ok(Flow::Continue))
        } else {
            match self.step_spec() {
                Err(e) => (self, Err(e)),
                Ok((next, Flow::Halt)) => (next, Ok(Flow::Halt)),
                Ok((next, Flow::Continue)) => next.run_spec((budget - 1) as nat),
            }
        }
    }

    /// JMP absolute.
    pub fn jmp_absolute(&mut self) -> (r: Result<(), CpuError>)
        ensures
            effect(*old(self), *final(self), r, old(self).jmp_absolute_spec()),
    {
        let mem_address: u16 = self.try_read_u16(self.pc)?;
        self.pc = mem_address;
        Ok(())
    }

    /// JMP indirect, with the page-boundary behaviour of the hardware.
    pub fn jmp_indirect(&mut self) -> (r: Result<(), CpuError>)
        ensures
            effect(*old(self), *final(self), r, old(self).jmp_indirect_spec()),
    {
        let mem_address: u16 = self.try_read_u16(self.pc)?;
        assert((mem_address & 0x00FF == 0x00FF) == (mem_address % 0x100 == 0xFF)) by (bit_vector);
        let indirect_ref: u16 = if mem_address & 0x00FF == 0x00FF {
            let lo: u8 = self.try_read(mem_address)?;
            assert(mem_address & 0xFF00 == mem_address - 0xFF) by (bit_vector)
                requires
                    mem_address % 0x100 == 0xFF,
            ;
            let hi: u8 = self.mem_read(mem_address & 0xFF00);
            word(lo, hi)
        } else {
            self.try_read_u16(mem_address)?
        };
        self.pc = indirect_ref;
        Ok(())
    }

    /// JSR: calls a subroutine.
    pub fn jsr(&mut self) -> (r: Result<(), CpuError>)
        ensures
            effect(*old(self), *final(self), r, old(self).jsr_spec()),
    {
        if self.pc >= 0xFFFE {
            return Err(CpuError::OutOfRangeAddress);
        }
        let origin: u16 = self.pc;
        self.stack_push_u16(origin + 2 - 1);
        let target_address: u16 = self.mem_read_u16(origin);
        self.pc = target_address;
        Ok(())
    }

    /// RTS: returns from a subroutine.
    pub fn rts(&mut self) -> (r: Result<(), CpuError>)
        ensures
            effect(*old(self), *final(self), r, old(self).rts_spec()),
    {
        let sp: u8 = self.sp;
        let back: u16 = self.stack_pop_u16();
        if back == 0xFFFF {
            self.sp = sp;
            return Err(CpuError::OutOfRangeAddress);
        }
        self.pc = back + 1;
        Ok(())
    }

    /// RTI: returns from an interrupt.
    pub fn rti(&mut self)
        ensures
            *final(self) == old(self).rti_spec(),
    {
        self.plp();
        self.pc = self.stack_pop_u16();
    }

    /// Executes the instruction with opcode `code`, with the program counter
    /// on the byte after the opcode.
    pub fn execute(&mut self, code: u8, mode: &AddressingMode) -> (r: Result<(), CpuError>)
        ensures
            effect(*old(self), *final(self), r, old(self).execute_spec(code, *mode)),
    {
        match code {
            // LDA
            0xA9 | 0xA5 | 0xB5 | 0xAD | 0xBD | 0xB9 | 0xA1 | 0xB1 => self.lda(mode),
            // TAX
            0xAA => { self.tax(); Ok(()) },
            // INX
            0xE8 => { self.inx(); Ok(()) },
            // BRK
            0x00 => Ok(()),
            // CLD
            0xD8 => { self.status.remove(DECIMAL_MODE); Ok(()) },
            // CLI
            0x58 => { self.status.remove(INTERRUPT_DISABLE); Ok(()) },
            // CLV
            0xB8 => { self.status.remove(OVERFLOW); Ok(()) },
            // CLC
            0x18 => { self.clear_carry_flag(); Ok(()) },
            // SEC
            0x38 => { self.set_carry_flag(); Ok(()) },
            // SEI
            0x78 => { self.status.insert(INTERRUPT_DISABLE); Ok(()) },
            // SED
            0xF8 => { self.status.insert(DECIMAL_MODE); Ok(()) },
            // PHA
            0x48 => { let a: u8 = self.reg_a; self.stack_push(a); Ok(()) },
            // PLA
            0x68 => { self.pla(); Ok(()) },
            // PHP
            0x08 => { self.php(); Ok(()) },
            // PLP
            0x28 => { self.plp(); Ok(()) },
            // ADC
            0x69 | 0x65 | 0x75 | 0x6D | 0x7D | 0x79 | 0x61 | 0x71 => self.adc(mode),
            // SBC
            0xE9 | 0xE5 | 0xF5 | 0xED | 0xFD | 0xF9 | 0xE1 | 0xF1 => self.sbc(mode),
            // AND
            0x29 | 0x25 | 0x35 | 0x2D | 0x3D | 0x39 | 0x21 | 0x31 => self.and(mode),
            // EOR
            0x49 | 0x45 | 0x55 | 0x4D | 0x5D | 0x59 | 0x41 | 0x51 => self.eor(mode),
            // ORA
            0x09 | 0x05 | 0x15 | 0x0D | 0x1D | 0x19 | 0x01 | 0x11 => self.ora(mode),
            // LSR A
            0x4A => { self.lsr_accumulator(); Ok(()) },
            // LSR
            0x46 | 0x56 | 0x4E | 0x5E => discard(self.lsr(mode)),
            // ASL A
            0x0A => { self.asl_accumulator(); Ok(()) },
            // ASL
            0x06 | 0x16 | 0x0E | 0x1E => discard(self.asl(mode)),
            // ROL A
            0x2A => { self.rol_accumulator(); Ok(()) },
            // ROL
            0x26 | 0x36 | 0x2E | 0x3E => discard(self.rol(mode)),
            // ROR A
            0x6A => { self.ror_accumulator(); Ok(()) },
            // ROR
            0x66 | 0x76 | 0x6E | 0x7E => discard(self.ror(mode)),
            // INC
            0xE6 | 0xF6 | 0xEE | 0xFE => discard(self.inc(mode)),
            // INY
            0xC8 => { self.iny(); Ok(()) },
            // DEC
            0xC6 | 0xD6 | 0xCE | 0xDE => discard(self.dec(mode)),
            // DEX
            0xCA => { self.dex(); Ok(()) },
            // DEY
            0x88 => { self.dey(); Ok(()) },
            // CMP
            0xC9 | 0xC5 | 0xD5 | 0xCD | 0xDD | 0xD9 | 0xC1 | 0xD1 => { let a: u8 = self.reg_a; self.compare(mode, a) },
            // CPY
            0xC0 | 0xC4 | 0xCC => { let y: u8 = self.reg_y; self.compare(mode, y) },
            // CPX
            0xE0 | 0xE4 | 0xEC => { let x: u8 = self.reg_x; self.compare(mode, x) },
            // JMP absolute
            0x4C => self.jmp_absolute(),
            // JMP indirect
            0x6C => self.jmp_indirect(),
            // JSR
            0x20 => self.jsr(),
            // RTS
            0x60 => self.rts(),
            // RTI
            0x40 => { self.rti(); Ok(()) },
            // BNE
            0xD0 => { let taken: bool = !self.status.contains(ZERO); self.branch(taken) },
            // BVS
            0x70 => { let taken: bool = self.status.contains(OVERFLOW); self.branch(taken) },
            // BVC
            0x50 => { let taken: bool = !self.status.contains(OVERFLOW); self.branch(taken) },
            // BPL
            0x10 => { let taken: bool = !self.status.contains(NEGATIVE); self.branch(taken) },
            // BMI
            0x30 => { let taken: bool = self.status.contains(NEGATIVE); self.branch(taken) },
            // BEQ
            0xF0 => { let taken: bool = self.status.contains(ZERO); self.branch(taken) },
            // BCS
            0xB0 => { let taken: bool = self.status.contains(CARRY); self.branch(taken) },
            // BCC
            0x90 => { let taken: bool = !self.status.contains(CARRY); self.branch(taken) },
            // BIT
            0x24 | 0x2C => self.bit(mode),
            // STA
            0x85 | 0x95 | 0x8D | 0x9D | 0x99 | 0x81 | 0x91 => self.sta(mode),
            // STX
            0x86 | 0x96 | 0x8E => { let x: u8 = self.reg_x; self.store(mode, x) },
            // STY
            0x84 | 0x94 | 0x8C => { let y: u8 = self.reg_y; self.store(mode, y) },
            // LDX
            0xA2 | 0xA6 | 0xB6 | 0xAE | 0xBE => self.ldx(mode),
            // LDY
            0xA0 | 0xA4 | 0xB4 | 0xAC | 0xBC => self.ldy(mode),
            // NOP
            0xEA => Ok(()),
            // TAY
            0xA8 => { self.reg_y = self.reg_a; let y: u8 = self.reg_y; self.update_zero_and_negative_flags(y); Ok(()) },
            // TSX
            0xBA => { self.reg_x = self.sp; let x: u8 = self.reg_x; self.update_zero_and_negative_flags(x); Ok(()) },
            // TXA
            0x8A => { self.reg_a = self.reg_x; let a: u8 = self.reg_a; self.update_zero_and_negative_flags(a); Ok(()) },
            // TXS
            0x9A => { self.sp = self.reg_x; Ok(()) },
            // TYA
            0x98 => { self.reg_a = self.reg_y; let a: u8 = self.reg_a; self.update_zero_and_negative_flags(a); Ok(()) },
            _ => Err(CpuError::UnrecognizedOpcode),
        }
    }

    /// Reads the opcode at the program counter and looks it up. The program
    /// counter stays where it is.
    pub fn decode(&self) -> (r: Result<OpCode, CpuError>)
        ensures
            r == self.decode_spec(),
    {
        let code: u8 = self.try_read(self.pc)?;
        match lookup(code) {
            Some(op) => {
                if self.pc as u32 + op.len as u32 > 0xFFFF {
                    Err(CpuError::OutOfRangeAddress)
                } else {
                    Ok(op)
                }
            },
            None => Err(CpuError::UnrecognizedOpcode),
        }
    }

    /// Dispatches a fetched instruction, with the program counter on the byte
    /// after the opcode, and moves the program counter past the operand bytes
    /// where the instruction did not move it.
    pub fn perform(&mut self, op: &OpCode) -> (r: Result<Flow, CpuError>)
        requires
            1 <= op.len,
            old(self).pc + op.len - 1 <= 0xFFFF,
        ensures
            match old(self).perform_spec(*op) {
                Ok(pair) => r == Ok::<Flow, CpuError>(pair.1) && *final(self) == pair.0,
                Err(e) => r == Err::<Flow, CpuError>(e) && *final(self) == *old(self),
            },
    {
        if op.code == 0x00 {
            return Ok(Flow::Halt);
        }
        let pc_state: u16 = self.pc;
        self.execute(op.code, &op.mode)?;
        if pc_state == self.pc {
            self.pc = self.pc + (op.len - 1) as u16;
        }
        Ok(Flow::Continue)
    }

    /// Fetches, decodes and executes one instruction.
    pub fn step(&mut self) -> (r: Result<Flow, CpuError>)
        ensures
            match old(self).step_spec() {
                Ok(pair) => r == Ok::<Flow, CpuError>(pair.1) && *final(self) == pair.0,
                Err(e) => r == Err::<Flow, CpuError>(e) && *final(self) == *old(self),
            },
    {
        let start: u16 = self.pc;
        let op: OpCode = self.decode()?;
        proof {
            lemma_rows(self.peek(start as int));
        }
        self.pc = start + 1;
        match self.perform(&op) {
            Ok(flow) => Ok(flow),
            Err(e) => {
                self.pc = start;
                Err(e)
            },
        }
    }

    /// Runs from the current state until the halt opcode, a fault, or the end
    /// of the instruction budget. In each cycle the opcode is fetched and
    /// looked up, the program counter is moved past it, `callback` is called
    /// on the machine, and the instruction is dispatched. The hook only looks
    /// at the machine; it has no part in the result.
    pub fn run_with_callback<F: FnMut(&CPU)>(&mut self, mut callback: F) -> (r: Result<Flow, CpuError>)
        requires
            forall|cpu: &CPU| callback.requires((cpu,)),
        ensures
            (*final(self), r) == old(self).run_spec(INSTRUCTION_BUDGET as nat),
    {
        let mut budget: u64 = INSTRUCTION_BUDGET;
        while budget > 0
            invariant
                forall|cpu: &CPU| callback.requires((cpu,)),
                self.run_spec(budget as nat) == old(self).run_spec(INSTRUCTION_BUDGET as nat),
            decreases budget,
        {
            let start: u16 = self.pc;
            let op: OpCode = self.decode()?;
            proof {
                lemma_rows(self.peek(start as int));
            }
            self.pc = start + 1;
            callback(&*self);
            match self.perform(&op) {
                Err(e) => {
                    self.pc = start;
                    return Err(e);
                },
                Ok(Flow::Halt) => {
                    return Ok(Flow::Halt);
                },
                Ok(Flow::Continue) => {},
            }
            budget = budget - 1;
        }
        Ok(Flow::Continue)
    }

    /// Runs from the current state until the halt opcode, a fault, or the end
    /// of the instruction budget.
    pub fn run(&mut self) -> (r: Result<Flow, CpuError>)
        ensures
            (*final(self), r) == old(self).run_spec(INSTRUCTION_BUDGET as nat),
    {
        self.run_with_callback(|_cpu: &CPU| {})
    }

    /// Clears the memory, loads `program`, resets the machine and runs it.
    pub fn load_and_run(&mut self, program: Vec<u8>) -> (r: Result<Flow, CpuError>)
        requires
            program.len() <= MAX_PROGRAM_LEN,
        ensures
            (*final(self), r) == old(self).wiped().loaded(program@).reset_state().run_spec(
                INSTRUCTION_BUDGET as nat,
            ),
    {
        self.memory = [0;0xFFFF];
        self.load(program);
        self.reset();
        self.run()
    }
}

/// Once a run has stopped on the halt opcode or on a fault, a larger budget
/// changes nothing: the budget decides only how long a machine that never
/// stops is followed.
pub proof fn lemma_budget(cpu: CPU, small: nat, large: nat)
    requires
        small <= large,
        cpu.run_spec(small).1 != Ok::<Flow, CpuError>(Flow::Continue),
    ensures
        cpu.run_spec(large) == cpu.run_spec(small),
    decreases small,
{
    if small > 0 {
        match cpu.step_spec() {
            Ok((next, Flow::Continue)) => {
                lemma_budget(next, (small - 1) as nat, (large - 1) as nat);
            },
            _ => {},
        }
    }
}

/// The table and the dispatch agree: an opcode that has a row is wired to an
/// instruction, and where that instruction resolves an operand, the row's
/// addressing mode is one that has an effective address.
pub proof fn lemma_wired(cpu: CPU, code: u8)
    requires
        opcode(code) is Some,
    ensures
        cpu.execute_spec(code, opcode(code).unwrap().mode) != Err::<CPU, CpuError>(
            CpuError::UnrecognizedOpcode,
        ),
        cpu.execute_spec(code, opcode(code).unwrap().mode) != Err::<CPU, CpuError>(
            CpuError::UnsupportedAddressingMode,
        ),
{
}

/// A step never faults on the addressing mode, and it reports an
/// unrecognized opcode exactly when the byte at the program counter has no
/// row in the table.
pub proof fn lemma_step_faults(cpu: CPU)
    ensures
        cpu.step_spec() != Err::<(CPU, Flow), CpuError>(CpuError::UnsupportedAddressingMode),
        cpu.step_spec() == Err::<(CPU, Flow), CpuError>(CpuError::UnrecognizedOpcode) <==> cpu.pc
            < MEM_SIZE && opcode(cpu.peek(cpu.pc as int)) is None,
{
    if cpu.pc < MEM_SIZE {
        let code = cpu.peek(cpu.pc as int);
        if opcode(code) is Some {
            let fetched = CPU { pc: (cpu.pc + 1) as u16, ..cpu };
            lemma_rows(code);
            lemma_wired(fetched, code);
        }
    }
}


} // verus!
