//! The instruction families. Each is given as a pure function from a machine
//! to the machine after the instruction (or to the fault that stops it), and
//! as a routine on `&mut CPU` that computes that function. A routine that
//! reports a fault leaves the machine as it found it.
use vstd::prelude::*;
use crate::cpu::{AddressingMode, CpuError, CPU, STACK, word, word_of, low_byte, high_byte, wrap8, wrap16};
use crate::flags::{is_flag, lemma_with_flag, lemma_with_zn, CpuFlags, BREAK, BREAK2, CARRY, NEGATIVE, OVERFLOW, ZERO};

verus! {

/// A routine without a result did what `want` says: it ended in that machine,
/// or reported that fault and changed nothing.
pub open spec fn effect(pre: CPU, post: CPU, r: Result<(), CpuError>, want: Result<CPU, CpuError>) -> bool {
    match want {
        Ok(next) => r is Ok && post == next,
        Err(e) => r == Err::<(), CpuError>(e) && post == pre,
    }
}

/// A routine that returns the byte it wrote did what `want` says.
pub open spec fn effect_value(
    pre: CPU,
    post: CPU,
    r: Result<u8, CpuError>,
    want: Result<(CPU, u8), CpuError>,
) -> bool {
    match want {
        Ok(pair) => r == Ok::<u8, CpuError>(pair.1) && post == pair.0,
        Err(e) => r == Err::<u8, CpuError>(e) && post == pre,
    }
}

/// A byte read as a signed 8-bit offset.
pub open spec fn signed(offset: u8) -> int {
    if offset < 0x80 {
        offset as int
    } else {
        offset - 0x100
    }
}

/// A byte rotated left by one bit, with `carry` moving into bit 0.
pub open spec fn rotated_left(data: u8, carry: bool) -> u8 {
    wrap8(
        2 * data + if carry {
            1int
        } else {
            0int
        },
    )
}

/// A byte rotated right by one bit, with `carry` moving into bit 7.
pub open spec fn rotated_right(data: u8, carry: bool) -> u8 {
    (data / 2 + if carry {
        0x80int
    } else {
        0int
    }) as u8
}

/// Rotates left; also returns the bit that falls out at the top.
pub fn rotate_left(data: u8, carry: bool) -> (out: (u8, bool))
    ensures
        out.0 == rotated_left(data, carry),
        out.1 == (data >= 0x80),
{
    let top: bool = data >> 7 == 1;
    let mut shifted: u8 = data << 1;
    assert((data >> 7 == 1) == (data >= 0x80)) by (bit_vector);
    assert(data << 1 == (2 * data) % 0x100 && (data << 1) | 1 == (2 * data + 1) % 0x100)
        by (bit_vector);
    if carry {
        shifted = shifted | 1;
    }
    (shifted, top)
}

/// Rotates right; also returns the bit that falls out at the bottom.
pub fn rotate_right(data: u8, carry: bool) -> (out: (u8, bool))
    ensures
        out.0 == rotated_right(data, carry),
        out.1 == (data % 2 == 1),
{
    let low: bool = data & 1 == 1;
    let mut shifted: u8 = data >> 1;
    assert((data & 1 == 1) == (data % 2 == 1)) by (bit_vector);
    assert(data >> 1 == data / 2 && (data >> 1) | 0x80 == data / 2 + 0x80) by (bit_vector);
    if carry {
        shifted = shifted | 0b1000_0000;
    }
    (shifted, low)
}

impl CPU {
    /// Zero and Negative recomputed from `result`.
    pub open spec fn zn(self, result: u8) -> CPU {
        CPU { status: self.status.with_zn(result), ..self }
    }

    /// One flag switched.
    pub open spec fn flag(self, mask: u8, on: bool) -> CPU {
        CPU { status: self.status.with(mask, on), ..self }
    }

    /// The accumulator loaded with `value`.
    pub open spec fn set_a(self, value: u8) -> CPU {
        (CPU { reg_a: value, ..self }).zn(value)
    }

    /// Index X loaded with `value`.
    pub open spec fn set_x(self, value: u8) -> CPU {
        (CPU { reg_x: value, ..self }).zn(value)
    }

    /// Index Y loaded with `value`.
    pub open spec fn set_y(self, value: u8) -> CPU {
        (CPU { reg_y: value, ..self }).zn(value)
    }

    /// `value` written at `addr`, and Zero and Negative taken from it.
    pub open spec fn stored(self, addr: u16, value: u8) -> CPU {
        self.poke(addr as int, value).zn(value)
    }

    /// The machine after `data` and the Carry flag are added to the
    /// accumulator. Carry reports a sum past 0xFF; Overflow is the bit test
    /// `(data ^ result) & (result ^ accumulator) & 0x80 != 0`.
    pub open spec fn added(self, data: u8) -> CPU {
        let sum = self.reg_a + data + if self.status.has(CARRY) {
            1int
        } else {
            0int
        };
        let result = wrap8(sum);
        self.flag(CARRY, sum > 0xFF).flag(
            OVERFLOW,
            (data ^ result) & (result ^ self.reg_a) & 0x80 != 0,
        ).set_a(result)
    }

    /// The machine after `register` is compared with `data`.
    pub open spec fn compared(self, register: u8, data: u8) -> CPU {
        self.flag(CARRY, data <= register).zn(wrap8(register - data))
    }

    /// The machine after the bits of `data` are tested against the
    /// accumulator.
    pub open spec fn bit_tested(self, data: u8) -> CPU {
        self.flag(ZERO, self.reg_a & data == 0).flag(NEGATIVE, data & 0x80 != 0).flag(
            OVERFLOW,
            data & 0x40 != 0,
        )
    }

    /// The machine after `data` is pushed.
    pub open spec fn pushed(self, data: u8) -> CPU {
        CPU { sp: wrap8(self.sp - 1), ..self.poke(STACK + self.sp, data) }
    }

    /// The byte that the next pull returns.
    pub open spec fn stack_top(self) -> u8 {
        self.peek(STACK + wrap8(self.sp + 1))
    }

    /// The machine after one byte is pulled.
    pub open spec fn popped(self) -> CPU {
        CPU { sp: wrap8(self.sp + 1), ..self }
    }

    /// The machine after a word is pushed, high byte first.
    pub open spec fn pushed16(self, data: u16) -> CPU {
        self.pushed((data / 0x100) as u8).pushed((data % 0x100) as u8)
    }

    /// The word that the next two pulls return, low byte first.
    pub open spec fn stack_top16(self) -> u16 {
        word_of(self.stack_top(), self.popped().stack_top())
    }

    /// LDA: the operand goes into the accumulator.
    pub open spec fn lda_spec(self, mode: AddressingMode) -> Result<CPU, CpuError> {
        match self.operand(mode) {
            Ok(data) => Ok(self.set_a(data)),
            Err(e) => Err(e),
        }
    }

    /// LDX: the operand goes into index X.
    pub open spec fn ldx_spec(self, mode: AddressingMode) -> Result<CPU, CpuError> {
        match self.operand(mode) {
            Ok(data) => Ok(self.set_x(data)),
            Err(e) => Err(e),
        }
    }

    /// LDY: the operand goes into index Y.
    pub open spec fn ldy_spec(self, mode: AddressingMode) -> Result<CPU, CpuError> {
        match self.operand(mode) {
            Ok(data) => Ok(self.set_y(data)),
            Err(e) => Err(e),
        }
    }

    /// A register's value written to the operand's address; no flag changes.
    pub open spec fn store_spec(self, mode: AddressingMode, value: u8) -> Result<CPU, CpuError> {
        match self.target(mode) {
            Ok(addr) => Ok(self.poke(addr as int, value)),
            Err(e) => Err(e),
        }
    }

    /// AND: the accumulator and the operand, bit by bit.
    pub open spec fn and_spec(self, mode: AddressingMode) -> Result<CPU, CpuError> {
        match self.operand(mode) {
            Ok(data) => Ok(self.set_a(data & self.reg_a)),
            Err(e) => Err(e),
        }
    }

    /// EOR: the accumulator or the operand but not both, bit by bit.
    pub open spec fn eor_spec(self, mode: AddressingMode) -> Result<CPU, CpuError> {
        match self.operand(mode) {
            Ok(data) => Ok(self.set_a(data ^ self.reg_a)),
            Err(e) => Err(e),
        }
    }

    /// ORA: the accumulator or the operand, bit by bit.
    pub open spec fn ora_spec(self, mode: AddressingMode) -> Result<CPU, CpuError> {
        match self.operand(mode) {
            Ok(data) => Ok(self.set_a(data | self.reg_a)),
            Err(e) => Err(e),
        }
    }

    /// ADC: the operand and Carry are added to the accumulator.
    pub open spec fn adc_spec(self, mode: AddressingMode) -> Result<CPU, CpuError> {
        match self.operand(mode) {
            Ok(data) => Ok(self.added(data)),
            Err(e) => Err(e),
        }
    }

    /// Subtraction is addition of the operand's complement, `255 - data`.
    pub open spec fn sbc_spec(self, mode: AddressingMode) -> Result<CPU, CpuError> {
        match self.operand(mode) {
            Ok(data) => Ok(self.added((0xFF - data) as u8)),
            Err(e) => Err(e),
        }
    }

    /// CMP, CPX, CPY: `register` is compared with the operand.
    pub open spec fn compare_spec(self, mode: AddressingMode, register: u8) -> Result<
        CPU,
        CpuError,
    > {
        match self.operand(mode) {
            Ok(data) => Ok(self.compared(register, data)),
            Err(e) => Err(e),
        }
    }

    /// BIT: the operand's bits are tested against the accumulator.
    pub open spec fn bit_spec(self, mode: AddressingMode) -> Result<CPU, CpuError> {
        match self.operand(mode) {
            Ok(data) => Ok(self.bit_tested(data)),
            Err(e) => Err(e),
        }
    }

    /// INC: the byte at the operand's address plus one, modulo 256; also the
    /// byte written.
    pub open spec fn inc_spec(self, mode: AddressingMode) -> Result<(CPU, u8), CpuError> {
        match self.target(mode) {
            Ok(addr) => {
                let value = wrap8(self.peek(addr as int) + 1);
                Ok((self.stored(addr, value), value))
            },
            Err(e) => Err(e),
        }
    }

    /// DEC: the byte at the operand's address minus one, modulo 256; also the
    /// byte written.
    pub open spec fn dec_spec(self, mode: AddressingMode) -> Result<(CPU, u8), CpuError> {
        match self.target(mode) {
            Ok(addr) => {
                let value = wrap8(self.peek(addr as int) - 1);
                Ok((self.stored(addr, value), value))
            },
            Err(e) => Err(e),
        }
    }

    /// A shift or rotate to the left of the byte at the operand's address:
    /// `carry_in` moves into bit 0 and bit 7 moves into Carry.
    pub open spec fn left_spec(self, mode: AddressingMode, carry_in: bool) -> Result<
        (CPU, u8),
        CpuError,
    > {
        match self.target(mode) {
            Ok(addr) => {
                let data = self.peek(addr as int);
                let value = rotated_left(data, carry_in);
                Ok((self.flag(CARRY, data >= 0x80).stored(addr, value), value))
            },
            Err(e) => Err(e),
        }
    }

    /// A shift or rotate to the right of the byte at the operand's address:
    /// `carry_in` moves into bit 7 and bit 0 moves into Carry.
    pub open spec fn right_spec(self, mode: AddressingMode, carry_in: bool) -> Result<
        (CPU, u8),
        CpuError,
    > {
        match self.target(mode) {
            Ok(addr) => {
                let data = self.peek(addr as int);
                let value = rotated_right(data, carry_in);
                Ok((self.flag(CARRY, data % 2 == 1).stored(addr, value), value))
            },
            Err(e) => Err(e),
        }
    }

    /// The same to the left, on the accumulator.
    pub open spec fn left_a(self, carry_in: bool) -> CPU {
        self.flag(CARRY, self.reg_a >= 0x80).set_a(rotated_left(self.reg_a, carry_in))
    }

    /// The same to the right, on the accumulator.
    pub open spec fn right_a(self, carry_in: bool) -> CPU {
        self.flag(CARRY, self.reg_a % 2 == 1).set_a(rotated_right(self.reg_a, carry_in))
    }

    /// A branch: where `condition` holds, the signed offset at the program
    /// counter is added to the address of the byte after it.
    pub open spec fn branch_spec(self, condition: bool) -> Result<CPU, CpuError> {
        if condition {
            match self.fetch(self.pc) {
                Ok(offset) => Ok(CPU { pc: wrap16(self.pc + 1 + signed(offset)), ..self }),
                Err(e) => Err(e),
            }
        } else {
            Ok(self)
        }
    }

    /// PLA: a byte is pulled into the accumulator.
    pub open spec fn pla_spec(self) -> CPU {
        self.popped().set_a(self.stack_top())
    }

    /// PLP: the status is pulled, with Break cleared and Break2 set.
    pub open spec fn plp_spec(self) -> CPU {
        CPU { status: CpuFlags::pulled(self.stack_top()), ..self.popped() }
    }

    /// PHP: the status is pushed, with Break and Break2 set in the pushed byte.
    pub open spec fn php_spec(self) -> CPU {
        self.pushed(self.status.pushed())
    }

    /// LDY: loads index Y with the operand.
    pub fn ldy(&mut self, mode: &AddressingMode) -> (r: Result<(), CpuError>)
        ensures
            effect(*old(self), *final(self), r, old(self).ldy_spec(*mode)),
    {
        let data: u8 = self.read_operand(mode)?;
        self.reg_y = data;
        self.update_zero_and_negative_flags(data);
        Ok(())
    }

    /// LDX: loads index X with the operand.
    pub fn ldx(&mut self, mode: &AddressingMode) -> (r: Result<(), CpuError>)
        ensures
            effect(*old(self), *final(self), r, old(self).ldx_spec(*mode)),
    {
        let data: u8 = self.read_operand(mode)?;
        self.reg_x = data;
        self.update_zero_and_negative_flags(data);
        Ok(())
    }

    /// LDA: loads the accumulator with the operand.
    pub fn lda(&mut self, mode: &AddressingMode) -> (r: Result<(), CpuError>)
        ensures
            effect(*old(self), *final(self), r, old(self).lda_spec(*mode)),
    {
        let data: u8 = self.read_operand(mode)?;
        self.reg_a = data;
        self.update_zero_and_negative_flags(data);
        Ok(())
    }

    /// STA: stores the accumulator at the operand's address.
    pub fn sta(&mut self, mode: &AddressingMode) -> (r: Result<(), CpuError>)
        ensures
            effect(*old(self), *final(self), r, old(self).store_spec(*mode, old(self).reg_a)),
    {
        let value: u8 = self.reg_a;
        self.store(mode, value)
    }

    /// Writes `value` at the operand's address.
    pub fn store(&mut self, mode: &AddressingMode, value: u8) -> (r: Result<(), CpuError>)
        ensures
            effect(*old(self), *final(self), r, old(self).store_spec(*mode, value)),
    {
        let addr: u16 = self.operand_target(mode)?;
        self.mem_write(addr, value);
        Ok(())
    }

    /// AND: combines the operand into the accumulator with bitwise and.
    pub fn and(&mut self, mode: &AddressingMode) -> (r: Result<(), CpuError>)
        ensures
            effect(*old(self), *final(self), r, old(self).and_spec(*mode)),
    {
        let data: u8 = self.read_operand(mode)?;
        self.set_register_a(data & self.reg_a);
        Ok(())
    }

    /// EOR: combines the operand into the accumulator with bitwise exclusive or.
    pub fn eor(&mut self, mode: &AddressingMode) -> (r: Result<(), CpuError>)
        ensures
            effect(*old(self), *final(self), r, old(self).eor_spec(*mode)),
    {
        let data: u8 = self.read_operand(mode)?;
        self.set_register_a(data ^ self.reg_a);
        Ok(())
    }

    /// ORA: combines the operand into the accumulator with bitwise or.
    pub fn ora(&mut self, mode: &AddressingMode) -> (r: Result<(), CpuError>)
        ensures
            effect(*old(self), *final(self), r, old(self).ora_spec(*mode)),
    {
        let data: u8 = self.read_operand(mode)?;
        self.set_register_a(data | self.reg_a);
        Ok(())
    }

    /// TAX: copies the accumulator to index X.
    pub fn tax(&mut self)
        ensures
            *final(self) == old(self).set_x(old(self).reg_a),
    {
        self.reg_x = self.reg_a;
        self.update_zero_and_negative_flags(self.reg_x);
    }

    /// INX: adds one to index X, wrapping from 0xFF to 0x00.
    pub fn inx(&mut self)
        ensures
            *final(self) == old(self).set_x(wrap8(old(self).reg_x + 1)),
    {
        self.reg_x = self.reg_x.wrapping_add(1);
        self.update_zero_and_negative_flags(self.reg_x);
    }

    /// INY: adds one to index Y, wrapping from 0xFF to 0x00.
    pub fn iny(&mut self)
        ensures
            *final(self) == old(self).set_y(wrap8(old(self).reg_y + 1)),
    {
        self.reg_y = self.reg_y.wrapping_add(1);
        self.update_zero_and_negative_flags(self.reg_y);
    }

    /// SBC: subtracts the operand from the accumulator, as an addition of its
    /// complement.
    pub fn sbc(&mut self, mode: &AddressingMode) -> (r: Result<(), CpuError>)
        ensures
            effect(*old(self), *final(self), r, old(self).sbc_spec(*mode)),
    {
        let data: u8 = self.read_operand(mode)?;
        self.add_to_register_a(0xFF - data);
        Ok(())
    }

    /// ADC: adds the operand and Carry to the accumulator.
    pub fn adc(&mut self, mode: &AddressingMode) -> (r: Result<(), CpuError>)
        ensures
            effect(*old(self), *final(self), r, old(self).adc_spec(*mode)),
    {
        let value: u8 = self.read_operand(mode)?;
        self.add_to_register_a(value);
        Ok(())
    }

    /// DEY: takes one off index Y, wrapping from 0x00 to 0xFF.
    pub fn dey(&mut self)
        ensures
            *final(self) == old(self).set_y(wrap8(old(self).reg_y - 1)),
    {
        self.reg_y = self.reg_y.wrapping_sub(1);
        self.update_zero_and_negative_flags(self.reg_y);
    }

    /// DEX: takes one off index X, wrapping from 0x00 to 0xFF.
    pub fn dex(&mut self)
        ensures
            *final(self) == old(self).set_x(wrap8(old(self).reg_x - 1)),
    {
        self.reg_x = self.reg_x.wrapping_sub(1);
        self.update_zero_and_negative_flags(self.reg_x);
    }

    /// DEC: takes one off the byte at the operand's address and returns the new
    /// byte.
    pub fn dec(&mut self, mode: &AddressingMode) -> (r: Result<u8, CpuError>)
        ensures
            effect_value(*old(self), *final(self), r, old(self).dec_spec(*mode)),
    {
        let addr: u16 = self.operand_target(mode)?;
        let mut data: u8 = self.mem_read(addr);
        data = data.wrapping_sub(1);
        self.mem_write(addr, data);
        self.update_zero_and_negative_flags(data);
        Ok(data)
    }

    /// PLA: pulls the accumulator from the stack.
    pub fn pla(&mut self)
        ensures
            *final(self) == old(self).pla_spec(),
    {
        let data: u8 = self.stack_pop();
        self.set_register_a(data);
    }

    /// PLP: pulls the status from the stack.
    pub fn plp(&mut self)
        ensures
            *final(self) == old(self).plp_spec(),
    {
        self.status.bits = self.stack_pop();
        self.status.remove(BREAK);
        self.status.insert(BREAK2);
    }

    /// PHP: pushes the status on the stack.
    pub fn php(&mut self)
        ensures
            *final(self) == old(self).php_spec(),
    {
        let mut flags: CpuFlags = self.status;
        flags.insert(BREAK);
        flags.insert(BREAK2);
        self.stack_push(flags.bits());
    }

    /// BIT: sets Zero from `accumulator & operand`, Negative and Overflow from
    /// bits 7 and 6 of the operand.
    pub fn bit(&mut self, mode: &AddressingMode) -> (r: Result<(), CpuError>)
        ensures
            effect(*old(self), *final(self), r, old(self).bit_spec(*mode)),
    {
        let data: u8 = self.read_operand(mode)?;
        let and: u8 = self.reg_a & data;
        if and == 0 {
            self.status.insert(ZERO);
        } else {
            self.status.remove(ZERO);
        }
        self.status.set(NEGATIVE, data & 0b1000_0000 > 0);
        self.status.set(OVERFLOW, data & 0b0100_0000 > 0);
        Ok(())
    }

    /// CMP, CPX, CPY: sets Carry where the operand is at most `compare_with`, and
    /// Zero and Negative from the difference.
    pub fn compare(&mut self, mode: &AddressingMode, compare_with: u8) -> (r: Result<(), CpuError>)
        ensures
            effect(*old(self), *final(self), r, old(self).compare_spec(*mode, compare_with)),
    {
        let data: u8 = self.read_operand(mode)?;
        if data <= compare_with {
            self.status.insert(CARRY);
        } else {
            self.status.remove(CARRY);
        }
        self.update_zero_and_negative_flags(compare_with.wrapping_sub(data));
        Ok(())
    }

    /// The branch opcodes: jumps by the signed offset at the program counter
    /// where `condition` holds.
    pub fn branch(&mut self, condition: bool) -> (r: Result<(), CpuError>)
        ensures
            effect(*old(self), *final(self), r, old(self).branch_spec(condition)),
    {
        if condition {
            let jump: u8 = self.try_read(self.pc)?;
            let next: u16 = self.pc.wrapping_add(1);
            let jump_addr: u16 = if jump < 0x80 {
                next.wrapping_add(jump as u16)
            } else {
                next.wrapping_sub(0x100 - jump as u16)
            };
            self.pc = jump_addr;
        }
        Ok(())
    }

    /// INC: adds one to the byte at the operand's address and returns the new
    /// byte.
    pub fn inc(&mut self, mode: &AddressingMode) -> (r: Result<u8, CpuError>)
        ensures
            effect_value(*old(self), *final(self), r, old(self).inc_spec(*mode)),
    {
        let addr: u16 = self.operand_target(mode)?;
        let mut data: u8 = self.mem_read(addr);
        data = data.wrapping_add(1);
        self.mem_write(addr, data);
        self.update_zero_and_negative_flags(data);
        Ok(data)
    }

    /// Writes a shifted byte back and sets Carry, Zero and Negative.
    fn write_shifted(&mut self, addr: u16, shifted: (u8, bool))
        requires
            addr < crate::cpu::MEM_SIZE,
        ensures
            *final(self) == old(self).flag(CARRY, shifted.1).stored(addr, shifted.0),
    {
        if shifted.1 {
            self.set_carry_flag();
        } else {
            self.clear_carry_flag();
        }
        self.mem_write(addr, shifted.0);
        self.update_zero_and_negative_flags(shifted.0);
    }

    /// Puts a shifted byte into the accumulator and sets Carry, Zero and
    /// Negative.
    fn load_shifted(&mut self, shifted: (u8, bool))
        ensures
            *final(self) == old(self).flag(CARRY, shifted.1).set_a(shifted.0),
    {
        if shifted.1 {
            self.set_carry_flag();
        } else {
            self.clear_carry_flag();
        }
        self.set_register_a(shifted.0);
    }

    /// ASL on the accumulator.
    pub fn asl_accumulator(&mut self)
        ensures
            *final(self) == old(self).left_a(false),
    {
        let shifted: (u8, bool) = rotate_left(self.reg_a, false);
        self.load_shifted(shifted);
    }

    /// ASL: shifts the byte at the operand's address left and returns the new
    /// byte.
    pub fn asl(&mut self, mode: &AddressingMode) -> (r: Result<u8, CpuError>)
        ensures
            effect_value(*old(self), *final(self), r, old(self).left_spec(*mode, false)),
    {
        let addr: u16 = self.operand_target(mode)?;
        let shifted: (u8, bool) = rotate_left(self.mem_read(addr), false);
        self.write_shifted(addr, shifted);
        Ok(shifted.0)
    }

    /// LSR on the accumulator.
    pub fn lsr_accumulator(&mut self)
        ensures
            *final(self) == old(self).right_a(false),
    {
        let shifted: (u8, bool) = rotate_right(self.reg_a, false);
        self.load_shifted(shifted);
    }

    /// LSR: shifts the byte at the operand's address right and returns the new
    /// byte.
    pub fn lsr(&mut self, mode: &AddressingMode) -> (r: Result<u8, CpuError>)
        ensures
            effect_value(*old(self), *final(self), r, old(self).right_spec(*mode, false)),
    {
        let addr: u16 = self.operand_target(mode)?;
        let shifted: (u8, bool) = rotate_right(self.mem_read(addr), false);
        self.write_shifted(addr, shifted);
        Ok(shifted.0)
    }

    /// ROL: rotates the byte at the operand's address left through Carry and
    /// returns the new byte.
    pub fn rol(&mut self, mode: &AddressingMode) -> (r: Result<u8, CpuError>)
        ensures
            effect_value(
                *old(self),
                *final(self),
                r,
                old(self).left_spec(*mode, old(self).status.has(CARRY)),
            ),
    {
        let addr: u16 = self.operand_target(mode)?;
        let old_carry: bool = self.status.contains(CARRY);
        let shifted: (u8, bool) = rotate_left(self.mem_read(addr), old_carry);
        self.write_shifted(addr, shifted);
        Ok(shifted.0)
    }

    /// ROL on the accumulator.
    pub fn rol_accumulator(&mut self)
        ensures
            *final(self) == old(self).left_a(old(self).status.has(CARRY)),
    {
        let old_carry: bool = self.status.contains(CARRY);
        let shifted: (u8, bool) = rotate_left(self.reg_a, old_carry);
        self.load_shifted(shifted);
    }

    /// ROR: rotates the byte at the operand's address right through Carry and
    /// returns the new byte.
    pub fn ror(&mut self, mode: &AddressingMode) -> (r: Result<u8, CpuError>)
        ensures
            effect_value(
                *old(self),
                *final(self),
                r,
                old(self).right_spec(*mode, old(self).status.has(CARRY)),
            ),
    {
        let addr: u16 = self.operand_target(mode)?;
        let old_carry: bool = self.status.contains(CARRY);
        let shifted: (u8, bool) = rotate_right(self.mem_read(addr), old_carry);
        self.write_shifted(addr, shifted);
        Ok(shifted.0)
    }

    /// ROR on the accumulator.
    pub fn ror_accumulator(&mut self)
        ensures
            *final(self) == old(self).right_a(old(self).status.has(CARRY)),
    {
        let old_carry: bool = self.status.contains(CARRY);
        let shifted: (u8, bool) = rotate_right(self.reg_a, old_carry);
        self.load_shifted(shifted);
    }

    /// Pulls a byte: the stack pointer moves up by one, then the byte there is
    /// read.
    pub fn stack_pop(&mut self) -> (data: u8)
        ensures
            *final(self) == old(self).popped(),
            data == old(self).stack_top(),
    {
        self.sp = self.sp.wrapping_add(1);
        self.mem_read(STACK + self.sp as u16)
    }

    /// Pushes a byte: it is written at the stack pointer, which then moves down
    /// by one.
    pub fn stack_push(&mut self, data: u8)
        ensures
            *final(self) == old(self).pushed(data),
    {
        self.mem_write(STACK + self.sp as u16, data);
        self.sp = self.sp.wrapping_sub(1);
    }

    /// Pushes a word, high byte first.
    pub fn stack_push_u16(&mut self, data: u16)
        ensures
            *final(self) == old(self).pushed16(data),
    {
        let hi: u8 = high_byte(data);
        let lo: u8 = low_byte(data);
        self.stack_push(hi);
        self.stack_push(lo);
    }

    /// Pulls a word, low byte first.
    pub fn stack_pop_u16(&mut self) -> (data: u16)
        ensures
            *final(self) == old(self).popped().popped(),
            data == old(self).stack_top16(),
    {
        let lo: u8 = self.stack_pop();
        let hi: u8 = self.stack_pop();
        word(lo, hi)
    }

    /// Loads the accumulator and recomputes Zero and Negative from it.
    pub fn set_register_a(&mut self, value: u8)
        ensures
            *final(self) == old(self).set_a(value),
    {
        self.reg_a = value;
        self.update_zero_and_negative_flags(value);
    }

    /// Recomputes Zero and Negative from a result byte: Zero is set exactly
    /// when the byte is 0, Negative exactly when its bit 7 is set.
    pub fn update_zero_and_negative_flags(&mut self, result: u8)
        ensures
            *final(self) == old(self).zn(result),
            final(self).status.has(ZERO) <==> result == 0,
            final(self).status.has(NEGATIVE) <==> result & 0x80 != 0,
    {
        if result == 0 {
            self.status.insert(ZERO);
        } else {
            self.status.remove(ZERO);
        }
        assert((result & 0b1000_0000 != 0) == (result >= 0x80)) by (bit_vector);
        if result & 0b1000_0000 != 0 {
            self.status.insert(NEGATIVE);
        } else {
            self.status.remove(NEGATIVE);
        }
        proof {
            lemma_with_zn(old(self).status, result, ZERO);
        }
    }

    /// Sets Carry.
    pub fn set_carry_flag(&mut self)
        ensures
            *final(self) == old(self).flag(CARRY, true),
    {
        self.status.insert(CARRY)
    }

    /// Clears Carry.
    pub fn clear_carry_flag(&mut self)
        ensures
            *final(self) == old(self).flag(CARRY, false),
    {
        self.status.remove(CARRY)
    }

    /// Adds `data` and the Carry flag to the accumulator.
    pub fn add_to_register_a(&mut self, data: u8)
        ensures
            *final(self) == old(self).added(data),
    {
        let carry_in: u16 = if self.status.contains(CARRY) {
            1
        } else {
            0
        };
        let sum: u16 = self.reg_a as u16 + data as u16 + carry_in;
        let carry: bool = sum > 0xff;
        if carry {
            self.status.insert(CARRY);
        } else {
            self.status.remove(CARRY);
        }
        let result: u8 = low_byte(sum);
        if (data ^ result) & (result ^ self.reg_a) & 0x80 != 0 {
            self.status.insert(OVERFLOW);
        } else {
            self.status.remove(OVERFLOW)
        }
        self.set_register_a(result);
    }
}

/// Whichever register a byte is loaded into, the register then holds the
/// byte, Zero is set exactly when the byte is 0, and Negative exactly when
/// its bit 7 is set.
pub proof fn lemma_load_flags(cpu: CPU, value: u8)
    ensures
        cpu.set_a(value).reg_a == value,
        cpu.set_x(value).reg_x == value,
        cpu.set_y(value).reg_y == value,
        cpu.set_a(value).status == cpu.zn(value).status,
        cpu.set_x(value).status == cpu.zn(value).status,
        cpu.set_y(value).status == cpu.zn(value).status,
        cpu.zn(value).status.has(ZERO) <==> value == 0,
        cpu.zn(value).status.has(NEGATIVE) <==> value & 0x80 != 0,
{
    lemma_with_zn(cpu.status, value, ZERO);
}

/// What an addition leaves behind. The accumulator holds the sum modulo 256.
/// Carry is set exactly when the unsigned sum passes 0xFF, Overflow exactly
/// when the sum of the operands read as signed bytes, plus the carry, does not
/// fit a signed byte. Zero and Negative describe the new accumulator, and the
/// four other flags are as before.
pub proof fn lemma_added(cpu: CPU, data: u8, other: u8)
    requires
        is_flag(other),
    ensures
        ({
            let carry = if cpu.status.has(CARRY) {
                1int
            } else {
                0int
            };
            let sum = cpu.reg_a + data + carry;
            let signed_sum = signed(cpu.reg_a) + signed(data) + carry;
            let next = cpu.added(data);
            &&& next.reg_a == sum % 0x100
            &&& next.status.has(CARRY) <==> sum > 0xFF
            &&& next.status.has(OVERFLOW) <==> !(-0x80 <= signed_sum <= 0x7F)
            &&& next.status.has(ZERO) <==> next.reg_a == 0
            &&& next.status.has(NEGATIVE) <==> next.reg_a >= 0x80
            &&& next.status.has(NEGATIVE) <==> next.reg_a & 0x80 != 0
            &&& other != CARRY && other != OVERFLOW && other != ZERO && other != NEGATIVE
                ==> next.status.has(other) == cpu.status.has(other)
            &&& next == CPU { reg_a: next.reg_a, status: next.status, ..cpu }
        }),
{
    let carry = if cpu.status.has(CARRY) {
        1int
    } else {
        0int
    };
    let sum = cpu.reg_a + data + carry;
    let result = wrap8(sum);
    let a = cpu.reg_a;
    let test = (data ^ result) & (result ^ a) & 0x80 != 0;
    assert(test == ((a < 0x80) == (data < 0x80) && (result < 0x80) != (a < 0x80)))
        by (bit_vector)
        requires
            test == ((data ^ result) & (result ^ a) & 0x80 != 0),
    ;
    let c = cpu.status.with(CARRY, sum > 0xFF);
    let v = c.with(OVERFLOW, test);
    lemma_with_flag(cpu.status, CARRY, sum > 0xFF, CARRY);
    lemma_with_flag(cpu.status, CARRY, sum > 0xFF, other);
    lemma_with_flag(c, OVERFLOW, test, CARRY);
    lemma_with_flag(c, OVERFLOW, test, OVERFLOW);
    lemma_with_flag(c, OVERFLOW, test, other);
    lemma_with_zn(v, result, CARRY);
    lemma_with_zn(v, result, OVERFLOW);
    lemma_with_zn(v, result, other);
}

/// What was pushed last is pulled first, and the pull puts the stack pointer
/// back.
pub proof fn lemma_push_pop(cpu: CPU, data: u8, wide: u16)
    ensures
        cpu.pushed(data).stack_top() == data,
        cpu.pushed(data).popped().sp == cpu.sp,
        cpu.pushed16(wide).stack_top16() == wide,
        cpu.pushed16(wide).popped().popped().sp == cpu.sp,
{
    broadcast use vstd::array::group_array_axioms;

}

/// Zero and Negative of `next` describe the byte `result`: Zero is set exactly
/// when it is 0, Negative exactly when its bit 7 is set.
pub open spec fn shows(next: CPU, result: u8) -> bool {
    &&& next.status.has(ZERO) <==> result == 0
    &&& next.status.has(NEGATIVE) <==> result & 0x80 != 0
}

/// Every instruction that produces a result byte leaves Zero and Negative
/// describing that byte: the loads, the bitwise operations, the additions,
/// the comparisons (whose result is the difference modulo 256), the
/// increments and decrements, the shifts and rotates, and PLA.
pub proof fn lemma_result_flags(cpu: CPU, mode: AddressingMode, register: u8, carry_in: bool)
    ensures
        cpu.lda_spec(mode) matches Ok(next) ==> shows(next, next.reg_a),
        cpu.ldx_spec(mode) matches Ok(next) ==> shows(next, next.reg_x),
        cpu.ldy_spec(mode) matches Ok(next) ==> shows(next, next.reg_y),
        cpu.and_spec(mode) matches Ok(next) ==> shows(next, next.reg_a),
        cpu.eor_spec(mode) matches Ok(next) ==> shows(next, next.reg_a),
        cpu.ora_spec(mode) matches Ok(next) ==> shows(next, next.reg_a),
        cpu.adc_spec(mode) matches Ok(next) ==> shows(next, next.reg_a),
        cpu.sbc_spec(mode) matches Ok(next) ==> shows(next, next.reg_a),
        cpu.compare_spec(mode, register) matches Ok(next) ==> shows(
            next,
            wrap8(register - cpu.operand(mode).unwrap()),
        ),
        cpu.inc_spec(mode) matches Ok(pair) ==> shows(pair.0, pair.1),
        cpu.dec_spec(mode) matches Ok(pair) ==> shows(pair.0, pair.1),
        cpu.left_spec(mode, carry_in) matches Ok(pair) ==> shows(pair.0, pair.1),
        cpu.right_spec(mode, carry_in) matches Ok(pair) ==> shows(pair.0, pair.1),
        shows(cpu.left_a(carry_in), cpu.left_a(carry_in).reg_a),
        shows(cpu.right_a(carry_in), cpu.right_a(carry_in).reg_a),
        shows(cpu.pla_spec(), cpu.pla_spec().reg_a),
{
    if cpu.operand(mode) is Ok {
        let data = cpu.operand(mode).unwrap();
        let addr = cpu.target(mode).unwrap();
        lemma_load_flags(cpu, data);
        lemma_load_flags(cpu, data & cpu.reg_a);
        lemma_load_flags(cpu, data ^ cpu.reg_a);
        lemma_load_flags(cpu, data | cpu.reg_a);
        lemma_added(cpu, data, CARRY);
        lemma_added(cpu, (0xFF - data) as u8, CARRY);
        lemma_load_flags(cpu.flag(CARRY, data <= register), wrap8(register - data));
        lemma_load_flags(cpu.poke(addr as int, wrap8(data + 1)), wrap8(data + 1));
        lemma_load_flags(cpu.poke(addr as int, wrap8(data - 1)), wrap8(data - 1));
        let left = rotated_left(data, carry_in);
        let right = rotated_right(data, carry_in);
        lemma_load_flags(cpu.flag(CARRY, data >= 0x80).poke(addr as int, left), left);
        lemma_load_flags(cpu.flag(CARRY, data % 2 == 1).poke(addr as int, right), right);
    }
    lemma_load_flags(cpu.flag(CARRY, cpu.reg_a >= 0x80), rotated_left(cpu.reg_a, carry_in));
    lemma_load_flags(cpu.flag(CARRY, cpu.reg_a % 2 == 1), rotated_right(cpu.reg_a, carry_in));
    lemma_load_flags(cpu.popped(), cpu.stack_top());
}

} // verus!
