use mos6502::cpu::{CpuError, CPU};
use mos6502::engine::Flow;

#[test]
fn test_lda_immidiate_load_data() {
    let mut cpu = CPU::new();

    let outcome = cpu.load_and_run(vec![0xA9, 0x05, 0x00]);

    assert_eq!(outcome, Ok(Flow::Halt));
    assert_eq!(cpu.reg_a, 5);
    assert!(cpu.status.bits() & 0b0000_0010 == 0b00);
    assert!(cpu.status.bits() & 0b1000_0000 == 0);
}

#[test]
fn test_lda_zero_flag() {
    let mut cpu = CPU::new();

    let outcome = cpu.load_and_run(vec![0xA9, 0x00, 0x00]);

    assert_eq!(outcome, Ok(Flow::Halt));
    assert!(cpu.status.bits() & 0b0000_0010 == 0b10);
}

#[test]
fn test_lta_to_memory() {
    let mut cpu = CPU::new();
    cpu.load(vec![0x85, 0x10, 0x00]);
    cpu.reset();
    cpu.reg_a = 0x55;

    let outcome = cpu.run();

    assert_eq!(outcome, Ok(Flow::Halt));
    assert_eq!(cpu.mem_read(0x10 as u16), 0x55);
}

#[test]
fn test_tax_move_a_to_x() {
    let mut cpu = CPU::new();
    cpu.load(vec![0xaa, 0x00]);
    cpu.reset();
    cpu.reg_a = 10;

    let outcome = cpu.run();

    assert_eq!(outcome, Ok(Flow::Halt));
    assert_eq!(cpu.reg_x, 10)
}

#[test]
fn test_inx_overflow() {
    let mut cpu = CPU::new();
    cpu.load(vec![0xe8, 0xe8, 0x00]);
    cpu.reset();
    cpu.reg_x = 0xff;

    let outcome = cpu.run();

    assert_eq!(outcome, Ok(Flow::Halt));
    assert_eq!(cpu.reg_x, 1)
}

#[test]
fn test_5_ops_working_together() {
    let mut cpu = CPU::new();

    let outcome = cpu.load_and_run(vec![0xa9, 0xc0, 0xaa, 0xe8, 0x00]);

    assert_eq!(outcome, Ok(Flow::Halt));
    assert_eq!(cpu.reg_x, 0xc1)
}

fn started(program: Vec<u8>) -> CPU {
    let mut cpu = CPU::new();
    cpu.load(program);
    cpu.reset();
    cpu
}

#[test]
fn halt_leaves_pc_after_the_opcode() {
    let mut cpu = started(vec![0xEA, 0xEA, 0x00]);
    assert_eq!(cpu.run(), Ok(Flow::Halt));
    assert_eq!(cpu.pc, 0x8003);
}

#[test]
fn step_advances_by_instruction_length() {
    let mut cpu = started(vec![0xA9, 0x01, 0xAD, 0x00, 0x80, 0xEA, 0x00]);
    assert_eq!(cpu.step(), Ok(Flow::Continue));
    assert_eq!(cpu.pc, 0x8002);
    assert_eq!(cpu.step(), Ok(Flow::Continue));
    assert_eq!(cpu.pc, 0x8005);
    assert_eq!(cpu.reg_a, 0xA9);
    assert_eq!(cpu.step(), Ok(Flow::Continue));
    assert_eq!(cpu.pc, 0x8006);
    assert_eq!(cpu.step(), Ok(Flow::Halt));
    assert_eq!(cpu.pc, 0x8007);
}

#[test]
fn unrecognized_opcode_is_a_fault_and_changes_nothing() {
    let mut cpu = started(vec![0xA9, 0x07, 0x02, 0x00]);
    assert_eq!(cpu.run(), Err(CpuError::UnrecognizedOpcode));
    assert_eq!(cpu.pc, 0x8002);
    assert_eq!(cpu.reg_a, 7);
}

#[test]
fn read_at_the_end_of_the_address_space_is_a_fault() {
    // LDA $FFFF
    let mut cpu = started(vec![0xAD, 0xFF, 0xFF, 0x00]);
    assert_eq!(cpu.run(), Err(CpuError::OutOfRangeAddress));
    assert_eq!(cpu.pc, 0x8000);
    assert_eq!(cpu.reg_a, 0);
}

#[test]
fn store_at_the_end_of_the_address_space_is_a_fault() {
    // LDX #1; STA $FFFE,X
    let mut cpu = started(vec![0xA2, 0x01, 0x9D, 0xFE, 0xFF, 0x00]);
    assert_eq!(cpu.run(), Err(CpuError::OutOfRangeAddress));
    assert_eq!(cpu.pc, 0x8002);
}

#[test]
fn fetch_past_the_image_is_a_fault() {
    let mut cpu = CPU::new();
    cpu.pc = 0xFFFF;
    assert_eq!(cpu.step(), Err(CpuError::OutOfRangeAddress));
    assert_eq!(cpu.pc, 0xFFFF);
}

#[test]
fn instruction_reaching_past_the_address_space_is_a_fault() {
    let mut cpu = CPU::new();
    // BNE at 0xFFFE: its operand byte would lie at 0xFFFF.
    cpu.mem_write(0xFFFE, 0xD0);
    cpu.pc = 0xFFFE;
    cpu.status.insert(mos6502::flags::ZERO);
    assert_eq!(cpu.step(), Err(CpuError::OutOfRangeAddress));
    assert_eq!(cpu.pc, 0xFFFE);
    // A one-byte instruction fits there.
    cpu.mem_write(0xFFFE, 0xEA);
    assert_eq!(cpu.step(), Ok(Flow::Continue));
    assert_eq!(cpu.pc, 0xFFFF);
}

#[test]
fn jmp_indirect_wraps_within_the_page() {
    // JMP ($30FF)
    let mut cpu = started(vec![0x6C, 0xFF, 0x30]);
    cpu.mem_write(0x30FF, 0x80);
    cpu.mem_write(0x3000, 0x50);
    cpu.mem_write(0x3100, 0x51);
    assert_eq!(cpu.step(), Ok(Flow::Continue));
    assert_eq!(cpu.pc, 0x5080);
}

#[test]
fn jmp_indirect_reads_a_plain_word_elsewhere() {
    let mut cpu = started(vec![0x6C, 0x10, 0x30]);
    cpu.mem_write_u16(0x3010, 0x1234);
    assert_eq!(cpu.step(), Ok(Flow::Continue));
    assert_eq!(cpu.pc, 0x1234);
}

#[test]
fn jmp_absolute_sets_pc() {
    let mut cpu = started(vec![0x4C, 0x05, 0x80, 0x00, 0x00, 0xA9, 0x09, 0x00]);
    assert_eq!(cpu.run(), Ok(Flow::Halt));
    assert_eq!(cpu.reg_a, 9);
    assert_eq!(cpu.pc, 0x8008);
}

#[test]
fn jsr_and_rts_return_behind_the_call() {
    // JSR $8005; LDX #3; BRK; LDA #7; RTS
    let mut cpu = started(vec![0x20, 0x06, 0x80, 0xA2, 0x03, 0x00, 0xA9, 0x07, 0x60]);
    assert_eq!(cpu.step(), Ok(Flow::Continue));
    assert_eq!(cpu.pc, 0x8006);
    assert_eq!(cpu.sp, 0xFB);
    assert_eq!(cpu.mem_read(0x010D), 0x80);
    assert_eq!(cpu.mem_read(0x010C), 0x02);
    assert_eq!(cpu.run(), Ok(Flow::Halt));
    assert_eq!(cpu.reg_a, 7);
    assert_eq!(cpu.reg_x, 3);
    assert_eq!(cpu.sp, 0xFD);
}

#[test]
fn rts_to_the_end_of_the_address_space_is_a_fault() {
    let mut cpu = started(vec![0x60]);
    cpu.stack_push_u16(0xFFFF);
    let sp = cpu.sp;
    assert_eq!(cpu.step(), Err(CpuError::OutOfRangeAddress));
    assert_eq!(cpu.sp, sp);
    assert_eq!(cpu.pc, 0x8000);
}

#[test]
fn rti_restores_status_and_pc() {
    let mut cpu = started(vec![0x40]);
    cpu.stack_push_u16(0x1234);
    cpu.stack_push(0b1101_0011);
    assert_eq!(cpu.step(), Ok(Flow::Continue));
    assert_eq!(cpu.pc, 0x1234);
    assert_eq!(cpu.status.bits(), 0b1110_0011);
    assert_eq!(cpu.sp, 0xFD);
}

#[test]
fn branch_forward_and_backward() {
    // BNE +2 taken (Zero clear after reset)
    let mut cpu = started(vec![0xD0, 0x02, 0x00, 0x00, 0xA9, 0x01, 0x00]);
    assert_eq!(cpu.step(), Ok(Flow::Continue));
    assert_eq!(cpu.pc, 0x8004);
    // BEQ not taken: the generic advance skips the offset byte
    let mut cpu = started(vec![0xF0, 0x02, 0x00]);
    assert_eq!(cpu.step(), Ok(Flow::Continue));
    assert_eq!(cpu.pc, 0x8002);
    // BNE -4: from 0x8004 + 1 back by 4
    let mut cpu = started(vec![0xEA, 0xEA, 0xEA, 0xD0, 0xFC, 0x00]);
    cpu.pc = 0x8003;
    assert_eq!(cpu.step(), Ok(Flow::Continue));
    assert_eq!(cpu.pc, 0x8001);
}

#[test]
fn branch_with_offset_zero_counts_as_not_moved() {
    // A taken branch with offset -1 lands on its own offset byte, where the
    // fetch had left the program counter, so the generic advance applies.
    let mut cpu = started(vec![0xD0, 0xFF, 0x00]);
    assert_eq!(cpu.step(), Ok(Flow::Continue));
    assert_eq!(cpu.pc, 0x8002);
}

#[test]
fn countdown_loop_runs_to_the_halt() {
    // LDX #5; loop: DEX; BNE loop; BRK
    let mut cpu = CPU::new();
    let outcome = cpu.load_and_run(vec![0xA2, 0x05, 0xCA, 0xD0, 0xFD, 0x00]);
    assert_eq!(outcome, Ok(Flow::Halt));
    assert_eq!(cpu.reg_x, 0);
    assert!(cpu.status.contains(mos6502::flags::ZERO));
}

#[test]
fn callback_sees_the_machine_after_each_fetch() {
    let mut seen: Vec<(u16, u8)> = Vec::new();
    let mut cpu = started(vec![0xA9, 0x05, 0xAA, 0x00]);
    let outcome = cpu.run_with_callback(|cpu: &CPU| seen.push((cpu.pc, cpu.reg_a)));
    assert_eq!(outcome, Ok(Flow::Halt));
    assert_eq!(seen, vec![(0x8001, 0), (0x8003, 5), (0x8004, 5)]);
}

#[test]
fn callback_is_not_called_for_a_failed_fetch() {
    let mut calls: u32 = 0;
    let mut cpu = started(vec![0xEA, 0x02]);
    let outcome = cpu.run_with_callback(|_| calls += 1);
    assert_eq!(outcome, Err(CpuError::UnrecognizedOpcode));
    assert_eq!(calls, 1);
    assert_eq!(cpu.pc, 0x8001);
}

#[test]
fn decode_and_perform_make_a_step() {
    let mut cpu = started(vec![0xA2, 0x07, 0x00]);
    let op = cpu.decode().unwrap();
    assert_eq!((op.code, op.mnemonic, op.len), (0xA2, "LDX", 2));
    assert_eq!(cpu.pc, 0x8000);
    cpu.pc += 1;
    assert_eq!(cpu.perform(&op), Ok(Flow::Continue));
    assert_eq!((cpu.reg_x, cpu.pc), (7, 0x8002));
    let brk = cpu.decode().unwrap();
    cpu.pc += 1;
    assert_eq!(cpu.perform(&brk), Ok(Flow::Halt));
    assert_eq!(cpu.pc, 0x8003);
    cpu.pc = 0xFFFF;
    assert_eq!(cpu.decode().err(), Some(CpuError::OutOfRangeAddress));
}

#[test]
fn load_and_run_clears_memory_first() {
    let mut cpu = CPU::new();
    cpu.mem_write(0x10, 0x99);
    // LDA $10
    assert_eq!(cpu.load_and_run(vec![0xA5, 0x10, 0x00]), Ok(Flow::Halt));
    assert_eq!(cpu.reg_a, 0);
}

#[test]
fn run_continues_from_where_the_machine_stands() {
    let mut cpu = started(vec![0xE8, 0x00, 0xE8, 0xE8, 0x00]);
    assert_eq!(cpu.run(), Ok(Flow::Halt));
    assert_eq!(cpu.reg_x, 1);
    assert_eq!(cpu.run(), Ok(Flow::Halt));
    assert_eq!(cpu.reg_x, 3);
    assert_eq!(cpu.pc, 0x8005);
}
