use nes_cpu::cpu::CPU;

#[test]
fn test_0xa9_lda_immediate_load_data() {
    let mut cpu = CPU::new();
    cpu.load_and_run(vec![0xa9, 0x05, 0x00]).unwrap();
    assert_eq!(cpu.register_a, 0x05);
}

#[test]
fn test_0xa9_lda_zero_flag() {
    let mut cpu = CPU::new();
    cpu.load_and_run(vec![0xa9, 0x00, 0x00]).unwrap();
    assert!(cpu.status.zero);
}

#[test]
fn test_5_ops_working_together() {
    let mut cpu = CPU::new();

    cpu.load_and_run(vec![0xa9, 0xc0, 0xaa, 0xe8, 0x00]).unwrap();

    assert_eq!(cpu.register_x, 0xc1)
}

#[test]
fn test_inx_overflow() {
    let mut cpu = CPU::new();
    cpu.load_and_run(vec![0xa9, 0xff, 0xaa, 0xe8, 0xe8, 0x00]).unwrap();

    assert_eq!(cpu.register_x, 1)
}

#[test]
fn test_lda_from_memory() {
    let mut cpu = CPU::new();
    cpu.mem_write(0x10, 0x55);

    cpu.load_and_run(vec![0xa5, 0x10, 0x00]).unwrap();

    assert_eq!(cpu.register_a, 0x55);
}

#[test]
fn test_lda_sta_dec_and() {
    let mut cpu = CPU::new();
    cpu.load_and_run(vec![
        0xA9,
        0b1010_0010, // load the value
        0x85,
        0x87, // store it at zero page 0x87
        0xC6,
        0x87, // decrement that byte
        0xC6,
        0x87, // and once more, to 0b1010_0000
        0x25,
        0x87, // AND the accumulator with it
    ])
    .unwrap();

    assert_eq!(cpu.register_a, 0b1010_0000)
}

#[test]
fn test_lda_eor_and() {
    let mut cpu = CPU::new();
    cpu.load_and_run(vec![
        0xA9,
        0b0111_0110, // load the value
        0x49,
        0b1010_1100, // exclusive-or: accumulator becomes 0b1101_1010
        0x29,
        0b1010_1100, // AND
    ])
    .unwrap();

    assert_eq!(cpu.register_a, 0b1000_1000)
}

#[test]
fn test_inc_ora() {
    let mut cpu = CPU::new();
    cpu.load_and_run(vec![
        0xE6, 0x26, // increment the byte at zero page 0x26
        0x05, 0x26, // OR the accumulator with it
    ])
    .unwrap();

    assert_eq!(cpu.register_a, 1)
}

#[test]
fn test_lda_immediate_negative_flag() {
    let mut cpu = CPU::new();
    cpu.load_and_run(vec![0xa9, 0x80, 0x00]).unwrap();
    assert_eq!(cpu.register_a, 0x80);
    assert!(cpu.status.negative);
    assert!(!cpu.status.zero);
}

#[test]
fn test_lda_absolute() {
    let mut cpu = CPU::new();
    cpu.mem_write(0x1234, 0x66);
    cpu.load_and_run(vec![0xad, 0x34, 0x12, 0x00]).unwrap();
    assert_eq!(cpu.register_a, 0x66);
}

#[test]
fn test_zero_page_x_wraps_into_page_zero() {
    let mut cpu = CPU::new();
    cpu.mem_write(0x7F, 0x42);
    // X = 0xFF, then LDA $80,X: 0x80 + 0xFF wraps to 0x7F, staying in page 0
    cpu.load_and_run(vec![0xa2, 0xff, 0xb5, 0x80, 0x00]).unwrap();
    assert_eq!(cpu.register_a, 0x42);
}

#[test]
fn test_indirect_x_pointer_wraps() {
    let mut cpu = CPU::new();
    // X = 0x01, LDA ($FF,X): the pointer 0xFF + 1 wraps to 0x00
    cpu.mem_write(0x00, 0x34);
    cpu.mem_write(0x01, 0x12);
    cpu.mem_write(0x1234, 0x77);
    cpu.load_and_run(vec![0xa2, 0x01, 0xa1, 0xff, 0x00]).unwrap();
    assert_eq!(cpu.register_a, 0x77);
}

#[test]
fn test_indirect_y_high_byte_wraps() {
    let mut cpu = CPU::new();
    // LDA ($FF),Y: low byte from 0xFF, high byte from 0x00 (wraps in page 0)
    cpu.mem_write(0xFF, 0x10);
    cpu.mem_write(0x00, 0x20);
    cpu.mem_write(0x2010, 0x99);
    cpu.load_and_run(vec![0xb1, 0xff, 0x00]).unwrap();
    assert_eq!(cpu.register_a, 0x99);
}

#[test]
fn test_dex_wraps_below_zero() {
    let mut cpu = CPU::new();
    // X = 0 via LDA #0 / TAX, then DEX wraps to 0xFF
    cpu.load_and_run(vec![0xa9, 0x00, 0xaa, 0xca, 0x00]).unwrap();
    assert_eq!(cpu.register_x, 0xFF);
    assert!(cpu.status.negative);
}

#[test]
fn test_inc_memory_wraps_past_ff() {
    let mut cpu = CPU::new();
    cpu.mem_write(0x30, 0xFF);
    cpu.load_and_run(vec![0xe6, 0x30, 0x00]).unwrap();
    assert_eq!(cpu.mem_read(0x30), 0x00);
    assert!(cpu.status.zero);
}

#[test]
fn test_asl_accumulator_sets_carry() {
    let mut cpu = CPU::new();
    cpu.load_and_run(vec![0xa9, 0x81, 0x0a, 0x00]).unwrap();
    assert_eq!(cpu.register_a, 0x02);
    assert!(cpu.status.carry);
    assert!(!cpu.status.zero);
}

#[test]
fn test_asl_memory_operand() {
    let mut cpu = CPU::new();
    cpu.mem_write(0x20, 0x40);
    cpu.load_and_run(vec![0x06, 0x20, 0x00]).unwrap();
    assert_eq!(cpu.mem_read(0x20), 0x80);
    assert!(!cpu.status.carry);
    assert!(cpu.status.negative);
}

#[test]
fn test_stx_sty_store_registers() {
    let mut cpu = CPU::new();
    cpu.load_and_run(vec![0xa2, 0x05, 0x86, 0x10, 0xa0, 0x07, 0x84, 0x11, 0x00]).unwrap();
    assert_eq!(cpu.mem_read(0x10), 0x05);
    assert_eq!(cpu.mem_read(0x11), 0x07);
}

#[test]
fn test_txs_sets_stack_pointer_without_flags() {
    let mut cpu = CPU::new();
    cpu.load_and_run(vec![0xa2, 0xab, 0x9a, 0x00]).unwrap();
    assert_eq!(cpu.stack_pointer, 0xab);
    // LDX left Negative set; TXS must not touch it
    assert!(cpu.status.negative);
}

#[test]
fn test_flag_set_and_clear_instructions() {
    let mut cpu = CPU::new();
    // SEC, SED, CLI: each toggles exactly its own flag
    cpu.load_and_run(vec![0x38, 0xf8, 0x58, 0x00]).unwrap();
    assert!(cpu.status.carry);
    assert!(cpu.status.decimal);
    assert!(!cpu.status.interrupt_disable);
}

#[test]
fn test_stack_pointer_wraps_on_pop() {
    let mut cpu = CPU::new();
    // three PLA from the reset pointer 0xFD step it to 0x00; TSX reads it
    cpu.load_and_run(vec![0x68, 0x68, 0x68, 0xba, 0x00]).unwrap();
    assert_eq!(cpu.register_x, 0x00);
}

#[test]
fn test_nop_changes_no_state() {
    let mut cpu = CPU::new();
    cpu.load_and_run(vec![0xea, 0xea, 0x00]).unwrap();
    assert_eq!(cpu.register_a, 0);
    assert_eq!(cpu.register_x, 0);
    assert_eq!(cpu.register_y, 0);
}
