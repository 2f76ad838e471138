//! Tests of the effective-address resolver of `w65816`: one concrete case
//! per addressing-mode formula, the wraparound edge cases, and the
//! page-cross cycle accounting.

use w65816::cpu::CPU;
use w65816::cpu::MODE_8BIT;
use w65816::opcodes::AddressingMode;

/// A CPU whose program counter points at an operand byte at 0x008000.
fn cpu_at_8000() -> CPU {
    let mut cpu = CPU::new();
    cpu.status = 0x00;
    cpu.program_counter = 0x8000;
    cpu
}

#[test]
fn immediate_resolves_to_pc() {
    let mut cpu = cpu_at_8000();
    cpu.program_bank = 0x12;
    assert_eq!(cpu.get_operand_address(&AddressingMode::Immediate), 0x128000);
}

#[test]
fn direct_page_adds_operand_to_d_register() {
    let mut cpu = cpu_at_8000();
    cpu.direct_page = 0x1234;
    cpu.mem_write(0x8000, 0x10);
    assert_eq!(cpu.get_operand_address(&AddressingMode::Direct_Page), 0x1244);
}

#[test]
fn direct_page_wraps_at_64k() {
    let mut cpu = cpu_at_8000();
    cpu.direct_page = 0xFFF0;
    cpu.mem_write(0x8000, 0x20);
    assert_eq!(cpu.get_operand_address(&AddressingMode::Direct_Page), 0x0010);
}

#[test]
fn absolute_prepends_data_bank() {
    let mut cpu = cpu_at_8000();
    cpu.data_bank = 0x7E;
    cpu.mem_write(0x8000, 0x34);
    cpu.mem_write(0x8001, 0x12);
    assert_eq!(cpu.get_operand_address(&AddressingMode::Absolute), 0x7E1234);
}

#[test]
fn direct_page_x_wraps_inside_page_when_aligned_in_emulation() {
    let mut cpu = cpu_at_8000();
    cpu.mode = MODE_8BIT;
    cpu.direct_page = 0x1200;
    cpu.register_x = 0x10;
    cpu.mem_write(0x8000, 0xFF);
    // 0x1200 + 0xFF = 0x12FF; adding X wraps inside page 0x12.
    assert_eq!(
        cpu.get_operand_address(&AddressingMode::Direct_Page_Indexed_by_X),
        0x120F
    );
}

#[test]
fn direct_page_x_wraps_over_16_bits_when_unaligned() {
    let mut cpu = cpu_at_8000();
    cpu.mode = MODE_8BIT;
    cpu.direct_page = 0x1201;
    cpu.register_x = 0x10;
    cpu.mem_write(0x8000, 0xFF);
    // 0x1201 + 0xFF + 0x10 = 0x1310: the page-confined wrap does not apply.
    assert_eq!(
        cpu.get_operand_address(&AddressingMode::Direct_Page_Indexed_by_X),
        0x1310
    );
}

#[test]
fn direct_page_x_uses_full_index_in_native_mode() {
    let mut cpu = cpu_at_8000();
    cpu.direct_page = 0x1200;
    cpu.register_x = 0x0210;
    cpu.mem_write(0x8000, 0xFF);
    // Native 16-bit index: 0x1200 + 0xFF + 0x210 = 0x150F.
    assert_eq!(
        cpu.get_operand_address(&AddressingMode::Direct_Page_Indexed_by_X),
        0x150F
    );
}

#[test]
fn zero_page_y_wraps_within_one_byte() {
    let mut cpu = cpu_at_8000();
    cpu.register_y = 0x20;
    cpu.mem_write(0x8000, 0xF0);
    assert_eq!(cpu.get_operand_address(&AddressingMode::ZeroPage_Y), 0x0010);
}

#[test]
fn absolute_indexed_by_x_adds_raw_index() {
    let mut cpu = cpu_at_8000();
    cpu.data_bank = 0x7E;
    cpu.register_x = 0x0010;
    cpu.mem_write(0x8000, 0x34);
    cpu.mem_write(0x8001, 0x12);
    assert_eq!(
        cpu.get_operand_address(&AddressingMode::Absolute_Indexed_by_X),
        0x7E1244
    );
    assert_eq!(cpu.add_cycles, 0);
}

#[test]
fn absolute_indexed_by_y_wraps_at_24_bits() {
    let mut cpu = cpu_at_8000();
    cpu.data_bank = 0xFF;
    cpu.register_y = 0x0100;
    cpu.mem_write(0x8000, 0xFF);
    cpu.mem_write(0x8001, 0xFF);
    // 0xFFFFFF + 0x100 wraps inside the 24-bit space.
    assert_eq!(
        cpu.get_operand_address(&AddressingMode::Absolute_Indexed_by_Y),
        0x0000FF
    );
}

#[test]
fn indirect_reads_pointer_from_bank_zero() {
    let mut cpu = cpu_at_8000();
    cpu.mem_write(0x8000, 0x34);
    cpu.mem_write(0x8001, 0x12);
    cpu.mem_write(0x1234, 0x78);
    cpu.mem_write(0x1235, 0x56);
    assert_eq!(cpu.get_operand_address(&AddressingMode::Indirect), 0x5678);
}

#[test]
fn indirect_x_wraps_pointer_within_one_byte() {
    let mut cpu = cpu_at_8000();
    cpu.register_x = 0x11;
    cpu.mem_write(0x8000, 0xF0);
    // 0xF0 + 0x11 wraps to pointer 0x01.
    cpu.mem_write(0x0001, 0x34);
    cpu.mem_write(0x0002, 0x12);
    assert_eq!(cpu.get_operand_address(&AddressingMode::Indirect_X), 0x1234);
}

#[test]
fn indirect_y_adds_raw_y_and_counts_page_cross() {
    let mut cpu = cpu_at_8000();
    cpu.register_y = 0x20;
    cpu.mem_write(0x8000, 0x20);
    cpu.mem_write(0x0020, 0xF0);
    cpu.mem_write(0x0021, 0x12);
    assert_eq!(cpu.get_operand_address(&AddressingMode::Indirect_Y), 0x1310);
    assert_eq!(cpu.add_cycles, 1);
}

#[test]
fn indirect_y_without_page_cross_adds_no_cycle() {
    let mut cpu = cpu_at_8000();
    cpu.register_y = 0x05;
    cpu.mem_write(0x8000, 0x20);
    cpu.mem_write(0x0020, 0xF0);
    cpu.mem_write(0x0021, 0x12);
    assert_eq!(cpu.get_operand_address(&AddressingMode::Indirect_Y), 0x12F5);
    assert_eq!(cpu.add_cycles, 0);
}

#[test]
fn relative_moves_pc_by_signed_offset() {
    let mut cpu = cpu_at_8000();
    cpu.mem_write(0x8000, 0x04);
    assert_eq!(cpu.get_operand_address(&AddressingMode::Relative), 0x8004);
    cpu.mem_write(0x8000, 0xFB); // -5
    assert_eq!(cpu.get_operand_address(&AddressingMode::Relative), 0x7FFB);
}

#[test]
fn absolute_long_reads_full_24_bit_address() {
    let mut cpu = cpu_at_8000();
    cpu.mem_write(0x8000, 0x56);
    cpu.mem_write(0x8001, 0x34);
    cpu.mem_write(0x8002, 0x12);
    assert_eq!(cpu.get_operand_address(&AddressingMode::Absolute_Long), 0x123456);
}

#[test]
fn absolute_long_x_adds_index_and_wraps_at_24_bits() {
    let mut cpu = cpu_at_8000();
    cpu.register_x = 0x0100;
    cpu.mem_write(0x8000, 0xFF);
    cpu.mem_write(0x8001, 0xFF);
    cpu.mem_write(0x8002, 0xFF);
    assert_eq!(
        cpu.get_operand_address(&AddressingMode::Absolute_Long_Indexed_by_X),
        0x0000FF
    );
}

#[test]
fn direct_page_indirect_prepends_data_bank_to_pointer() {
    let mut cpu = cpu_at_8000();
    cpu.direct_page = 0x0100;
    cpu.data_bank = 0x7E;
    cpu.mem_write(0x8000, 0x20);
    cpu.mem_write(0x0120, 0x56);
    cpu.mem_write(0x0121, 0x34);
    assert_eq!(
        cpu.get_operand_address(&AddressingMode::Direct_Page_Indirect),
        0x7E3456
    );
}

#[test]
fn direct_page_indirect_long_reads_its_own_bank_byte() {
    let mut cpu = cpu_at_8000();
    cpu.direct_page = 0x0100;
    cpu.data_bank = 0x7E; // ignored by the long form
    cpu.mem_write(0x8000, 0x20);
    cpu.mem_write(0x0120, 0x56);
    cpu.mem_write(0x0121, 0x34);
    cpu.mem_write(0x0122, 0x12);
    assert_eq!(
        cpu.get_operand_address(&AddressingMode::Direct_Page_Indirect_Long),
        0x123456
    );
}

#[test]
fn direct_page_y_adds_raw_y_without_mask() {
    let mut cpu = cpu_at_8000();
    cpu.direct_page = 0xFFF0;
    cpu.register_y = 0x30;
    cpu.mem_write(0x8000, 0x20);
    // 0xFFF0 + 0x20 wraps to 0x0010 in 16 bits, then Y is added on top.
    assert_eq!(
        cpu.get_operand_address(&AddressingMode::Direct_Page_Indexed_by_Y),
        0x0040
    );
}

#[test]
fn direct_page_indexed_indirect_x_fetches_through_pointer() {
    let mut cpu = cpu_at_8000();
    cpu.direct_page = 0x0100;
    cpu.data_bank = 0x7E;
    cpu.register_x = 0x04;
    cpu.mem_write(0x8000, 0x20);
    cpu.mem_write(0x0124, 0x56);
    cpu.mem_write(0x0125, 0x34);
    assert_eq!(
        cpu.get_operand_address(&AddressingMode::Direct_Page_Indexed_Indirect_by_X),
        0x7E3456
    );
}

#[test]
fn direct_page_indirect_y_counts_exactly_one_cycle_on_cross() {
    let mut cpu = cpu_at_8000();
    cpu.direct_page = 0x0000;
    cpu.register_y = 0x20;
    cpu.data_bank = 0x7E;
    cpu.mem_write(0x8000, 0x20);
    cpu.mem_write(0x0020, 0xF0);
    cpu.mem_write(0x0021, 0x12);
    assert_eq!(
        cpu.get_operand_address(&AddressingMode::Direct_Page_Indirect_Indexed_by_Y),
        0x7E1310
    );
    assert_eq!(cpu.add_cycles, 1);
    // Resolving again crosses again: one more cycle, never two at once.
    let before = cpu.add_cycles;
    cpu.get_operand_address(&AddressingMode::Direct_Page_Indirect_Indexed_by_Y);
    assert_eq!(cpu.add_cycles, before + 1);
}

#[test]
fn direct_page_indirect_y_without_cross_adds_no_cycle() {
    let mut cpu = cpu_at_8000();
    cpu.direct_page = 0x0000;
    cpu.register_y = 0x05;
    cpu.mem_write(0x8000, 0x20);
    cpu.mem_write(0x0020, 0xF0);
    cpu.mem_write(0x0021, 0x12);
    assert_eq!(
        cpu.get_operand_address(&AddressingMode::Direct_Page_Indirect_Indexed_by_Y),
        0x12F5
    );
    assert_eq!(cpu.add_cycles, 0);
}

#[test]
fn direct_page_indirect_long_y_indexes_a_24_bit_pointer() {
    let mut cpu = cpu_at_8000();
    cpu.direct_page = 0x0100;
    cpu.register_y = 0x10;
    cpu.mem_write(0x8000, 0x20);
    cpu.mem_write(0x0120, 0x56);
    cpu.mem_write(0x0121, 0x34);
    cpu.mem_write(0x0122, 0x12);
    assert_eq!(
        cpu.get_operand_address(&AddressingMode::Direct_Page_Indirect_Long_Indexed_by_Y),
        0x123466
    );
    assert_eq!(cpu.add_cycles, 0);
}

#[test]
fn direct_page_indirect_long_y_counts_cross_into_next_page() {
    let mut cpu = cpu_at_8000();
    cpu.direct_page = 0x0100;
    cpu.register_y = 0xB0;
    cpu.mem_write(0x8000, 0x20);
    cpu.mem_write(0x0120, 0x56);
    cpu.mem_write(0x0121, 0x34);
    cpu.mem_write(0x0122, 0x12);
    // 0x123456 + 0xB0 = 0x123506: a new 256-byte page.
    assert_eq!(
        cpu.get_operand_address(&AddressingMode::Direct_Page_Indirect_Long_Indexed_by_Y),
        0x123506
    );
    assert_eq!(cpu.add_cycles, 1);
}

#[test]
fn stack_relative_offsets_from_stack_page() {
    let mut cpu = cpu_at_8000();
    cpu.stack_pointer = 0x00F3;
    cpu.mem_write(0x8000, 0x02);
    assert_eq!(
        cpu.get_operand_address(&AddressingMode::Stack_Relative),
        0x0100 + 0x00F3 + 0x02
    );
}
