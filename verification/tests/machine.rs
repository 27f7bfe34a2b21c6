use mos6502::cpu::{
    high_byte, low_byte, word, AddressingMode, CpuError, CPU, MAX_PROGRAM_LEN, STACK_RESET,
};
use mos6502::flags::{
    CpuFlags, BREAK, BREAK2, CARRY, DECIMAL_MODE, INTERRUPT_DISABLE, NEGATIVE, OVERFLOW, ZERO,
};
use mos6502::instructions::{rotate_left, rotate_right};
use mos6502::opcodes::{lookup, OpCode};

#[test]
fn new_machine_is_cleared() {
    let cpu = CPU::new();
    assert_eq!((cpu.reg_a, cpu.reg_x, cpu.reg_y, cpu.pc), (0, 0, 0, 0));
    assert_eq!(cpu.sp, 0xFD);
    assert_eq!(cpu.sp, STACK_RESET);
    assert_eq!(cpu.status.bits(), 0b0010_0100);
    assert!(cpu.memory.iter().all(|b| *b == 0));
    assert_eq!(cpu.memory.len(), 65535);
}

#[test]
fn words_are_little_endian() {
    let mut cpu = CPU::new();
    cpu.mem_write_u16(0x1000, 0xBEEF);
    assert_eq!(cpu.mem_read(0x1000), 0xEF);
    assert_eq!(cpu.mem_read(0x1001), 0xBE);
    assert_eq!(cpu.mem_read_u16(0x1000), 0xBEEF);
    assert_eq!(word(0x34, 0x12), 0x1234);
    assert_eq!(low_byte(0x1234), 0x34);
    assert_eq!(high_byte(0x1234), 0x12);
}

#[test]
fn write16_then_read16_round_trips() {
    let mut cpu = CPU::new();
    for addr in [0x0000u16, 0x00FF, 0x010F, 0x8000, 0xFFFC, 0xFFFD] {
        for value in [0x0000u16, 0x0001, 0x00FF, 0x0100, 0x8000, 0xABCD, 0xFFFF] {
            cpu.mem_write_u16(addr, value);
            assert_eq!(cpu.mem_read_u16(addr), value);
            assert_eq!(cpu.try_read_u16(addr), Ok(value));
        }
    }
}

#[test]
fn checked_reads_refuse_the_last_address() {
    let mut cpu = CPU::new();
    cpu.mem_write(0xFFFE, 0x12);
    assert_eq!(cpu.try_read(0xFFFE), Ok(0x12));
    assert_eq!(cpu.try_read(0xFFFF), Err(CpuError::OutOfRangeAddress));
    assert_eq!(cpu.try_read_u16(0xFFFD), Ok(0x1200));
    assert_eq!(cpu.try_read_u16(0xFFFE), Err(CpuError::OutOfRangeAddress));
    assert_eq!(cpu.try_read_u16(0xFFFF), Err(CpuError::OutOfRangeAddress));
}

#[test]
fn load_installs_program_and_reset_vector() {
    let mut cpu = CPU::new();
    cpu.mem_write(0x7FFF, 0x11);
    cpu.load(vec![1, 2, 3]);
    assert_eq!(cpu.mem_read(0x7FFF), 0x11);
    assert_eq!(cpu.mem_read(0x8000), 1);
    assert_eq!(cpu.mem_read(0x8001), 2);
    assert_eq!(cpu.mem_read(0x8002), 3);
    assert_eq!(cpu.mem_read(0x8003), 0);
    assert_eq!(cpu.mem_read(0xFFFC), 0x00);
    assert_eq!(cpu.mem_read(0xFFFD), 0x80);
    assert_eq!(cpu.pc, 0);
}

#[test]
fn load_of_the_longest_program() {
    let mut cpu = CPU::new();
    cpu.load(vec![0xEA; MAX_PROGRAM_LEN]);
    assert_eq!(cpu.mem_read(0x8000), 0xEA);
    assert_eq!(cpu.mem_read(0xFFFB), 0xEA);
    assert_eq!(cpu.mem_read(0xFFFE), 0xEA);
    // the reset vector is written last
    assert_eq!(cpu.mem_read_u16(0xFFFC), 0x8000);
    cpu.load(Vec::new());
    assert_eq!(cpu.mem_read(0x8000), 0xEA);
}

#[test]
fn reset_restores_registers_and_reads_the_vector() {
    let mut cpu = CPU::new();
    cpu.reg_a = 1;
    cpu.reg_x = 2;
    cpu.reg_y = 3;
    cpu.sp = 0x10;
    cpu.status = CpuFlags::from_bits_truncate(0xFF);
    cpu.mem_write_u16(0xFFFC, 0x1234);
    cpu.mem_write(0x20, 0x77);
    cpu.reset();
    assert_eq!((cpu.reg_a, cpu.reg_x, cpu.reg_y), (0, 0, 0));
    assert_eq!(cpu.sp, 0xFD);
    assert_eq!(cpu.status.bits(), 0b0010_0100);
    assert_eq!(cpu.pc, 0x1234);
    assert_eq!(cpu.mem_read(0x20), 0x77);
}

#[test]
fn flags_insert_remove_set_contains() {
    let mut f = CpuFlags::from_bits_truncate(0);
    for (mask, bit) in [
        (CARRY, 0x01u8),
        (ZERO, 0x02),
        (INTERRUPT_DISABLE, 0x04),
        (DECIMAL_MODE, 0x08),
        (BREAK, 0x10),
        (BREAK2, 0x20),
        (OVERFLOW, 0x40),
        (NEGATIVE, 0x80),
    ] {
        assert_eq!(mask, bit);
        assert!(!f.contains(mask));
        f.insert(mask);
        assert!(f.contains(mask));
        assert_eq!(f.bits(), bit);
        f.set(mask, false);
        assert_eq!(f.bits(), 0);
        f.set(mask, true);
        f.remove(mask);
        assert_eq!(f.bits(), 0);
    }
}

#[test]
fn zero_and_negative_follow_every_byte() {
    for v in 0..=255u8 {
        for start in [0x00u8, 0xFF, 0b0010_0100] {
            let mut cpu = CPU::new();
            cpu.status = CpuFlags::from_bits_truncate(start);
            cpu.update_zero_and_negative_flags(v);
            assert_eq!(cpu.status.contains(ZERO), v == 0);
            assert_eq!(cpu.status.contains(NEGATIVE), v & 0x80 != 0);
            assert_eq!(cpu.status.bits() & 0b0111_1101, start & 0b0111_1101);

            let mut cpu = CPU::new();
            cpu.mem_write(0x8000, v);
            cpu.pc = 0x8000;
            assert_eq!(cpu.lda(&AddressingMode::Immediate), Ok(()));
            assert_eq!(cpu.ldx(&AddressingMode::Immediate), Ok(()));
            assert_eq!(cpu.ldy(&AddressingMode::Immediate), Ok(()));
            assert_eq!((cpu.reg_a, cpu.reg_x, cpu.reg_y), (v, v, v));
            assert_eq!(cpu.status.contains(ZERO), v == 0);
            assert_eq!(cpu.status.contains(NEGATIVE), v >= 0x80);
        }
    }
}

#[test]
fn increment_and_decrement_wrap() {
    let mut cpu = CPU::new();
    cpu.reg_x = 0xFF;
    cpu.inx();
    assert_eq!(cpu.reg_x, 0x00);
    assert!(cpu.status.contains(ZERO));
    assert!(!cpu.status.contains(NEGATIVE));
    cpu.dex();
    assert_eq!(cpu.reg_x, 0xFF);
    assert!(cpu.status.contains(NEGATIVE));
    assert!(!cpu.status.contains(ZERO));

    cpu.reg_y = 0xFF;
    cpu.iny();
    assert_eq!(cpu.reg_y, 0x00);
    assert!(cpu.status.contains(ZERO));
    cpu.dey();
    assert_eq!(cpu.reg_y, 0xFF);
    assert!(cpu.status.contains(NEGATIVE));

    // INC / DEC on memory, zero page operand 0x40
    cpu.mem_write(0x8000, 0x40);
    cpu.pc = 0x8000;
    cpu.mem_write(0x40, 0xFF);
    assert_eq!(cpu.inc(&AddressingMode::ZeroPage), Ok(0x00));
    assert_eq!(cpu.mem_read(0x40), 0x00);
    assert!(cpu.status.contains(ZERO));
    assert_eq!(cpu.dec(&AddressingMode::ZeroPage), Ok(0xFF));
    assert_eq!(cpu.mem_read(0x40), 0xFF);
    assert!(cpu.status.contains(NEGATIVE));
    assert_eq!(cpu.pc, 0x8000);
}

fn with_operand(bytes: &[u8]) -> CPU {
    let mut cpu = CPU::new();
    let mut addr: u16 = 0x8000;
    for b in bytes {
        cpu.mem_write(addr, *b);
        addr += 1;
    }
    cpu.pc = 0x8000;
    cpu
}

#[test]
fn zero_page_x_wraps_in_page_zero() {
    let mut cpu = with_operand(&[0xFF]);
    cpu.reg_x = 0x01;
    assert_eq!(cpu.get_operand_address(&AddressingMode::ZeroPageX), Ok(0x0000));
    cpu.reg_y = 0x02;
    assert_eq!(cpu.get_operand_address(&AddressingMode::ZeroPageY), Ok(0x0001));
    assert_eq!(cpu.get_operand_address(&AddressingMode::ZeroPage), Ok(0x00FF));
    assert_eq!(cpu.pc, 0x8000);
}

#[test]
fn resolver_modes() {
    let mut cpu = with_operand(&[0x34, 0x12]);
    cpu.reg_x = 0x10;
    cpu.reg_y = 0x20;
    assert_eq!(cpu.get_operand_address(&AddressingMode::Immediate), Ok(0x8000));
    assert_eq!(cpu.get_operand_address(&AddressingMode::ZeroPage), Ok(0x0034));
    assert_eq!(cpu.get_operand_address(&AddressingMode::ZeroPageX), Ok(0x0044));
    assert_eq!(cpu.get_operand_address(&AddressingMode::ZeroPageY), Ok(0x0054));
    assert_eq!(cpu.get_operand_address(&AddressingMode::Absolute), Ok(0x1234));
    assert_eq!(cpu.get_operand_address(&AddressingMode::AbsoluteX), Ok(0x1244));
    assert_eq!(cpu.get_operand_address(&AddressingMode::AbsoluteY), Ok(0x1254));
    // IndirectX: slot 0x34 + 0x10 = 0x44
    cpu.mem_write(0x44, 0xCD);
    cpu.mem_write(0x45, 0xAB);
    assert_eq!(cpu.get_operand_address(&AddressingMode::IndirectX), Ok(0xABCD));
    // IndirectY: word at slot 0x34, plus Y
    cpu.mem_write(0x34, 0xF0);
    cpu.mem_write(0x35, 0x20);
    assert_eq!(cpu.get_operand_address(&AddressingMode::IndirectY), Ok(0x2110));
    assert_eq!(
        cpu.get_operand_address(&AddressingMode::NoneAddressing),
        Err(CpuError::UnsupportedAddressingMode)
    );
}

#[test]
fn resolver_wraparound() {
    // AbsoluteX / AbsoluteY wrap at 16 bits
    let mut cpu = with_operand(&[0xFF, 0xFF]);
    cpu.reg_x = 0x02;
    cpu.reg_y = 0x01;
    assert_eq!(cpu.get_operand_address(&AddressingMode::AbsoluteX), Ok(0x0001));
    assert_eq!(cpu.get_operand_address(&AddressingMode::AbsoluteY), Ok(0x0000));
    // IndirectX: slot 0xFF, high byte from slot 0x00
    cpu.reg_x = 0x00;
    cpu.mem_write(0xFF, 0x11);
    cpu.mem_write(0x00, 0x22);
    cpu.mem_write(0x100, 0x33);
    assert_eq!(cpu.get_operand_address(&AddressingMode::IndirectX), Ok(0x2211));
    // IndirectY: same slot, plus Y with 16-bit wrap
    cpu.reg_y = 0x01;
    assert_eq!(cpu.get_operand_address(&AddressingMode::IndirectY), Ok(0x2212));
    cpu.mem_write(0xFF, 0xFF);
    cpu.mem_write(0x00, 0xFF);
    assert_eq!(cpu.get_operand_address(&AddressingMode::IndirectY), Ok(0x0000));
    assert_eq!(cpu.read_zero_page_word(0xFF), 0xFFFF);
}

#[test]
fn resolver_faults_when_operand_bytes_are_out_of_range() {
    let mut cpu = CPU::new();
    cpu.pc = 0xFFFF;
    assert_eq!(cpu.get_operand_address(&AddressingMode::Immediate), Ok(0xFFFF));
    assert_eq!(cpu.operand_target(&AddressingMode::Immediate), Err(CpuError::OutOfRangeAddress));
    assert_eq!(cpu.read_operand(&AddressingMode::Immediate), Err(CpuError::OutOfRangeAddress));
    assert_eq!(cpu.get_operand_address(&AddressingMode::ZeroPage), Err(CpuError::OutOfRangeAddress));
    cpu.pc = 0xFFFE;
    assert_eq!(cpu.get_operand_address(&AddressingMode::ZeroPage), Ok(0));
    assert_eq!(cpu.get_operand_address(&AddressingMode::Absolute), Err(CpuError::OutOfRangeAddress));
    assert_eq!(cpu.lda(&AddressingMode::NoneAddressing), Err(CpuError::UnsupportedAddressingMode));
}

#[test]
fn adc_signed_overflow() {
    let mut cpu = with_operand(&[0x01]);
    cpu.reg_a = 0x7F;
    cpu.status.remove(CARRY);
    assert_eq!(cpu.adc(&AddressingMode::Immediate), Ok(()));
    assert_eq!(cpu.reg_a, 0x80);
    assert!(!cpu.status.contains(CARRY));
    assert!(cpu.status.contains(OVERFLOW));
    assert!(cpu.status.contains(NEGATIVE));
    assert!(!cpu.status.contains(ZERO));
}

#[test]
fn adc_carry_in_and_out() {
    let mut cpu = CPU::new();
    cpu.reg_a = 0xFF;
    cpu.status.insert(CARRY);
    cpu.add_to_register_a(0x00);
    assert_eq!(cpu.reg_a, 0x00);
    assert!(cpu.status.contains(CARRY));
    assert!(cpu.status.contains(ZERO));
    assert!(!cpu.status.contains(OVERFLOW));
    cpu.add_to_register_a(0x10);
    assert_eq!(cpu.reg_a, 0x11);
    assert!(!cpu.status.contains(CARRY));
    // 0x80 + 0x80: carry and signed overflow
    cpu.reg_a = 0x80;
    cpu.add_to_register_a(0x80);
    assert_eq!(cpu.reg_a, 0x00);
    assert!(cpu.status.contains(CARRY));
    assert!(cpu.status.contains(OVERFLOW));
}

#[test]
fn sbc_is_adc_of_the_complement() {
    let mut cpu = with_operand(&[0x03]);
    cpu.reg_a = 0x0A;
    cpu.status.insert(CARRY);
    assert_eq!(cpu.sbc(&AddressingMode::Immediate), Ok(()));
    assert_eq!(cpu.reg_a, 0x07);
    assert!(cpu.status.contains(CARRY));
    // without carry one more is taken off; a borrow clears Carry
    cpu.reg_a = 0x00;
    cpu.status.remove(CARRY);
    assert_eq!(cpu.sbc(&AddressingMode::Immediate), Ok(()));
    assert_eq!(cpu.reg_a, 0xFC);
    assert!(!cpu.status.contains(CARRY));
    assert!(cpu.status.contains(NEGATIVE));
}

#[test]
fn compare_carry_polarity() {
    let mut cpu = with_operand(&[0x05]);
    assert_eq!(cpu.compare(&AddressingMode::Immediate, 5), Ok(()));
    assert!(cpu.status.contains(CARRY));
    assert!(cpu.status.contains(ZERO));
    assert!(!cpu.status.contains(NEGATIVE));
    assert_eq!(cpu.compare(&AddressingMode::Immediate, 3), Ok(()));
    assert!(!cpu.status.contains(CARRY));
    assert!(!cpu.status.contains(ZERO));
    assert!(cpu.status.contains(NEGATIVE));
    assert_eq!(cpu.compare(&AddressingMode::Immediate, 9), Ok(()));
    assert!(cpu.status.contains(CARRY));
    assert!(!cpu.status.contains(NEGATIVE));
}

#[test]
fn bitwise_instructions() {
    let mut cpu = with_operand(&[0b1100_1010]);
    cpu.reg_a = 0b1010_0110;
    assert_eq!(cpu.and(&AddressingMode::Immediate), Ok(()));
    assert_eq!(cpu.reg_a, 0b1000_0010);
    assert!(cpu.status.contains(NEGATIVE));
    assert_eq!(cpu.eor(&AddressingMode::Immediate), Ok(()));
    assert_eq!(cpu.reg_a, 0b0100_1000);
    assert_eq!(cpu.ora(&AddressingMode::Immediate), Ok(()));
    assert_eq!(cpu.reg_a, 0b1100_1010);
    cpu.reg_a = 0b0011_0101;
    assert_eq!(cpu.and(&AddressingMode::Immediate), Ok(()));
    assert_eq!(cpu.reg_a, 0);
    assert!(cpu.status.contains(ZERO));
}

#[test]
fn bit_takes_negative_and_overflow_from_the_operand() {
    let mut cpu = with_operand(&[0x40]);
    cpu.mem_write(0x40, 0b1100_0000);
    cpu.reg_a = 0b0000_0001;
    assert_eq!(cpu.bit(&AddressingMode::ZeroPage), Ok(()));
    assert!(cpu.status.contains(ZERO));
    assert!(cpu.status.contains(NEGATIVE));
    assert!(cpu.status.contains(OVERFLOW));
    assert_eq!(cpu.reg_a, 1);
    cpu.mem_write(0x40, 0b0000_0001);
    cpu.reg_a = 0xFF;
    assert_eq!(cpu.bit(&AddressingMode::ZeroPage), Ok(()));
    assert!(!cpu.status.contains(ZERO));
    assert!(!cpu.status.contains(NEGATIVE));
    assert!(!cpu.status.contains(OVERFLOW));
}

#[test]
fn rotate_helpers() {
    assert_eq!(rotate_left(0b1000_0001, false), (0b0000_0010, true));
    assert_eq!(rotate_left(0b0100_0000, true), (0b1000_0001, false));
    assert_eq!(rotate_right(0b1000_0001, false), (0b0100_0000, true));
    assert_eq!(rotate_right(0b0000_0010, true), (0b1000_0001, false));
}

#[test]
fn shifts_and_rotates_on_the_accumulator() {
    let mut cpu = CPU::new();
    cpu.reg_a = 0b1000_0001;
    cpu.asl_accumulator();
    assert_eq!(cpu.reg_a, 0b0000_0010);
    assert!(cpu.status.contains(CARRY));
    cpu.rol_accumulator();
    assert_eq!(cpu.reg_a, 0b0000_0101);
    assert!(!cpu.status.contains(CARRY));
    cpu.lsr_accumulator();
    assert_eq!(cpu.reg_a, 0b0000_0010);
    assert!(cpu.status.contains(CARRY));
    cpu.ror_accumulator();
    assert_eq!(cpu.reg_a, 0b1000_0001);
    assert!(!cpu.status.contains(CARRY));
    assert!(cpu.status.contains(NEGATIVE));
    cpu.reg_a = 0x80;
    cpu.asl_accumulator();
    assert_eq!(cpu.reg_a, 0);
    assert!(cpu.status.contains(ZERO));
    assert!(cpu.status.contains(CARRY));
}

#[test]
fn shifts_and_rotates_on_memory() {
    let mut cpu = with_operand(&[0x50]);
    let zp = AddressingMode::ZeroPage;
    cpu.mem_write(0x50, 0b1000_0001);
    assert_eq!(cpu.asl(&zp), Ok(0b0000_0010));
    assert!(cpu.status.contains(CARRY));
    assert_eq!(cpu.rol(&zp), Ok(0b0000_0101));
    assert!(!cpu.status.contains(CARRY));
    assert_eq!(cpu.lsr(&zp), Ok(0b0000_0010));
    assert!(cpu.status.contains(CARRY));
    assert_eq!(cpu.ror(&zp), Ok(0b1000_0001));
    assert!(!cpu.status.contains(CARRY));
    assert!(cpu.status.contains(NEGATIVE));
    assert_eq!(cpu.mem_read(0x50), 0b1000_0001);
    assert_eq!(cpu.asl(&AddressingMode::NoneAddressing), Err(CpuError::UnsupportedAddressingMode));
}

#[test]
fn stack_grows_downward_and_wraps() {
    let mut cpu = CPU::new();
    cpu.stack_push(0xAA);
    assert_eq!(cpu.sp, 0xFC);
    assert_eq!(cpu.mem_read(0x010D), 0xAA);
    assert_eq!(cpu.stack_pop(), 0xAA);
    assert_eq!(cpu.sp, 0xFD);
    cpu.sp = 0x00;
    cpu.stack_push(0xBB);
    assert_eq!(cpu.sp, 0xFF);
    assert_eq!(cpu.mem_read(0x0010), 0xBB);
    assert_eq!(cpu.stack_pop(), 0xBB);
    assert_eq!(cpu.sp, 0x00);
    cpu.stack_push_u16(0x1234);
    assert_eq!(cpu.sp, 0xFE);
    assert_eq!(cpu.mem_read(0x0010), 0x12);
    assert_eq!(cpu.mem_read(0x010F), 0x34);
    assert_eq!(cpu.stack_pop_u16(), 0x1234);
    assert_eq!(cpu.sp, 0x00);
}

#[test]
fn php_and_plp_force_the_break_bits() {
    let mut cpu = CPU::new();
    cpu.status = CpuFlags::from_bits_truncate(0b1100_0011);
    cpu.php();
    assert_eq!(cpu.mem_read(0x010D), 0b1111_0011);
    assert_eq!(cpu.status.bits(), 0b1100_0011);
    cpu.status = CpuFlags::from_bits_truncate(0);
    cpu.plp();
    assert_eq!(cpu.status.bits(), 0b1110_0011);
    cpu.stack_push(0x00);
    cpu.pla();
    assert_eq!(cpu.reg_a, 0);
    assert!(cpu.status.contains(ZERO));
}

#[test]
fn stores_and_transfers() {
    let mut cpu = with_operand(&[0x10]);
    cpu.reg_a = 0x80;
    let before = cpu.status.bits();
    assert_eq!(cpu.sta(&AddressingMode::ZeroPage), Ok(()));
    assert_eq!(cpu.mem_read(0x10), 0x80);
    assert_eq!(cpu.status.bits(), before);
    assert_eq!(cpu.store(&AddressingMode::ZeroPage, 0x42), Ok(()));
    assert_eq!(cpu.mem_read(0x10), 0x42);
    cpu.tax();
    assert_eq!(cpu.reg_x, 0x80);
    assert!(cpu.status.contains(NEGATIVE));
    // TXS changes no flag, TSX does
    assert_eq!(cpu.execute(0x9A, &AddressingMode::NoneAddressing), Ok(()));
    assert_eq!(cpu.sp, 0x80);
    cpu.sp = 0;
    assert_eq!(cpu.execute(0xBA, &AddressingMode::NoneAddressing), Ok(()));
    assert_eq!(cpu.reg_x, 0);
    assert!(cpu.status.contains(ZERO));
    cpu.set_register_a(0x33);
    assert_eq!(cpu.execute(0xA8, &AddressingMode::NoneAddressing), Ok(()));
    assert_eq!(cpu.reg_y, 0x33);
    cpu.reg_x = 0x44;
    assert_eq!(cpu.execute(0x8A, &AddressingMode::NoneAddressing), Ok(()));
    assert_eq!(cpu.reg_a, 0x44);
    cpu.reg_y = 0x55;
    assert_eq!(cpu.execute(0x98, &AddressingMode::NoneAddressing), Ok(()));
    assert_eq!(cpu.reg_a, 0x55);
    assert_eq!(
        cpu.execute(0x02, &AddressingMode::NoneAddressing),
        Err(CpuError::UnrecognizedOpcode)
    );
}

#[test]
fn flag_opcodes_touch_one_flag() {
    let n = AddressingMode::NoneAddressing;
    let mut cpu = CPU::new();
    cpu.status = CpuFlags::from_bits_truncate(0);
    assert_eq!(cpu.execute(0x38, &n), Ok(()));
    assert_eq!(cpu.status.bits(), 0b0000_0001);
    assert_eq!(cpu.execute(0x78, &n), Ok(()));
    assert_eq!(cpu.status.bits(), 0b0000_0101);
    assert_eq!(cpu.execute(0xF8, &n), Ok(()));
    assert_eq!(cpu.status.bits(), 0b0000_1101);
    assert_eq!(cpu.execute(0x18, &n), Ok(()));
    assert_eq!(cpu.status.bits(), 0b0000_1100);
    assert_eq!(cpu.execute(0x58, &n), Ok(()));
    assert_eq!(cpu.status.bits(), 0b0000_1000);
    assert_eq!(cpu.execute(0xD8, &n), Ok(()));
    assert_eq!(cpu.status.bits(), 0);
    cpu.status.insert(OVERFLOW);
    assert_eq!(cpu.execute(0xB8, &n), Ok(()));
    assert_eq!(cpu.status.bits(), 0);
    cpu.set_carry_flag();
    assert!(cpu.status.contains(CARRY));
    cpu.clear_carry_flag();
    assert!(!cpu.status.contains(CARRY));
}

#[test]
fn table_rows() {
    let lda = lookup(0xA9).unwrap();
    assert_eq!((lda.code, lda.mnemonic, lda.len, lda.cycles), (0xA9, "LDA", 2, 2));
    assert_eq!(lda.mode, AddressingMode::Immediate);
    let jmp = lookup(0x6C).unwrap();
    assert_eq!((jmp.mnemonic, jmp.len, jmp.cycles), ("JMP", 3, 5));
    assert_eq!(jmp.mode, AddressingMode::NoneAddressing);
    let brk = lookup(0x00).unwrap();
    assert_eq!((brk.mnemonic, brk.len, brk.cycles), ("BRK", 1, 7));
    assert!(lookup(0x02).is_none());
    assert!(lookup(0xFF).is_none());
    let mut rows = 0;
    for code in 0..=255u8 {
        if let Some(op) = lookup(code) {
            rows += 1;
            assert_eq!(op.code, code);
            assert!(1 <= op.len && op.len <= 3);
        }
    }
    assert_eq!(rows, 151);
    let made = OpCode::new(0xEA, "NOP", 1, 2, AddressingMode::NoneAddressing);
    let nop = lookup(0xEA).unwrap();
    assert_eq!(
        (made.code, made.mnemonic, made.len, made.cycles, made.mode),
        (nop.code, nop.mnemonic, nop.len, nop.cycles, nop.mode)
    );
}
