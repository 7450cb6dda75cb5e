use nes_cpu::cpu::CPU;
use nes_cpu::opcodes::AddressingMode;
use nes_cpu::opcodes::Mnemonic;
use nes_cpu::opcodes::lookup_opcode;
use nes_cpu::semantics::RunError;

#[test]
fn test_top_of_memory_reachable() {
    let mut cpu = CPU::new();
    cpu.mem_write(0xFFFF, 0xAB);
    assert_eq!(cpu.mem_read(0xFFFF), 0xAB);
}

#[test]
fn test_word_little_endian() {
    let mut cpu = CPU::new();
    cpu.mem_write_u16(0x10, 0x1234);
    assert_eq!(cpu.mem_read(0x10), 0x34);
    assert_eq!(cpu.mem_read(0x11), 0x12);
    assert_eq!(cpu.mem_read_u16(0x10), 0x1234);
}

#[test]
fn test_word_read_wraps_at_top() {
    let mut cpu = CPU::new();
    cpu.mem_write(0xFFFF, 0x01);
    cpu.mem_write(0x0000, 0x02);
    assert_eq!(cpu.mem_read_u16(0xFFFF), 0x0201);
}

#[test]
fn test_load_installs_image_and_vector() {
    let mut cpu = CPU::new();
    cpu.load(vec![0xEA, 0xA9]);
    assert_eq!(cpu.mem_read(0x8000), 0xEA);
    assert_eq!(cpu.mem_read(0x8001), 0xA9);
    assert_eq!(cpu.mem_read_u16(0xFFFC), 0x8000);
}

#[test]
fn test_reset_reads_vector_and_startup_state() {
    let mut cpu = CPU::new();
    cpu.mem_write_u16(0xFFFC, 0xC123);
    cpu.reset();
    assert_eq!(cpu.program_counter, 0xC123);
    assert_eq!(cpu.stack_pointer, 0xFD);
    assert_eq!(cpu.register_a, 0);
    assert_eq!(cpu.register_x, 0);
    assert_eq!(cpu.register_y, 0);
    assert!(cpu.status.interrupt_disable);
    assert!(cpu.status.negative);
    assert!(!cpu.status.zero);
    assert!(!cpu.status.carry);
    assert!(!cpu.status.break2);
}

#[test]
fn test_push_256_restores_stack_pointer() {
    let mut cpu = CPU::new();
    cpu.reset();
    let start = cpu.stack_pointer;
    for i in 0..256u16 {
        cpu.stack_push(i as u8);
    }
    assert_eq!(cpu.stack_pointer, start);
}

#[test]
fn test_stack_byte_round_trip() {
    let mut cpu = CPU::new();
    cpu.reset();
    cpu.stack_push(0x42);
    cpu.stack_push(0x43);
    assert_eq!(cpu.stack_pop(), 0x43);
    assert_eq!(cpu.stack_pop(), 0x42);
}

#[test]
fn test_stack_word_round_trip() {
    let mut cpu = CPU::new();
    cpu.reset();
    cpu.stack_push_u16(0xBEEF);
    // low byte nearer the top of the stack
    assert_eq!(cpu.mem_read(0x0100 + cpu.stack_pointer as u16 + 1), 0xEF);
    assert_eq!(cpu.stack_pop_u16(), 0xBEEF);
}

#[test]
fn test_zero_negative_derivation_pure() {
    let mut with_flags = CPU::new();
    with_flags.status.carry = true;
    with_flags.status.zero = true;
    with_flags.status.negative = true;
    let mut without_flags = CPU::new();
    without_flags.status.zero = false;
    without_flags.status.negative = false;
    with_flags.update_zero_and_negative_flags(0x05);
    without_flags.update_zero_and_negative_flags(0x05);
    assert_eq!(with_flags.status.zero, without_flags.status.zero);
    assert_eq!(with_flags.status.negative, without_flags.status.negative);
    assert!(!with_flags.status.zero);
    assert!(!with_flags.status.negative);
    // the untouched flags keep their old values
    assert!(with_flags.status.carry);
    with_flags.update_zero_and_negative_flags(0x00);
    assert!(with_flags.status.zero);
    with_flags.update_zero_and_negative_flags(0x80);
    assert!(with_flags.status.negative);
}

#[test]
fn test_none_addressing_resolves_to_no_address() {
    let cpu = CPU::new();
    assert_eq!(cpu.get_operand_address(AddressingMode::NoneAddressing), None);
}

#[test]
fn test_immediate_resolves_to_program_counter() {
    let mut cpu = CPU::new();
    cpu.mem_write_u16(0xFFFC, 0x8000);
    cpu.reset();
    assert_eq!(cpu.get_operand_address(AddressingMode::Immediate), Some(0x8000));
}

#[test]
fn test_unrecognized_opcode_is_fatal() {
    let mut cpu = CPU::new();
    // 0x02 is no documented instruction
    let result = cpu.load_and_run(vec![0x02]);
    assert_eq!(result, Err(RunError::UnrecognizedOpcode(0x02)));
}

#[test]
fn test_unimplemented_opcode_is_distinct() {
    let mut cpu = CPU::new();
    // 0x69 decodes (immediate add-with-carry) but has no handler here
    let result = cpu.load_and_run(vec![0x69, 0x01, 0x00]);
    assert_eq!(result, Err(RunError::UnimplementedOpcode(0x69)));
}

#[test]
fn test_decode_table_entries() {
    let lda = lookup_opcode(0xA9).unwrap();
    assert_eq!(lda.mnemonic, Mnemonic::LDA);
    assert_eq!(lda.mode, AddressingMode::Immediate);
    assert_eq!(lda.bytes, 2);
    let brk = lookup_opcode(0x00).unwrap();
    assert_eq!(brk.mnemonic, Mnemonic::BRK);
    assert_eq!(brk.bytes, 1);
    let sta = lookup_opcode(0x9D).unwrap();
    assert_eq!(sta.mnemonic, Mnemonic::STA);
    assert_eq!(sta.mode, AddressingMode::Absolute_X);
    assert_eq!(sta.bytes, 3);
    assert_eq!(lookup_opcode(0x02), None);
}

#[test]
fn test_single_step_reports_halt() {
    let mut cpu = CPU::new();
    cpu.load(vec![0xE8, 0x00]);
    cpu.reset();
    assert_eq!(cpu.step(), Ok(false));
    assert_eq!(cpu.register_x, 1);
    assert_eq!(cpu.step(), Ok(true));
}
