use gb_core::cpu::Cpu;
use gb_core::cpu::Flags;
use gb_core::cpu::Registers;
use gb_core::cpu::FLAG_C_MASK;
use gb_core::cpu::FLAG_H_MASK;
use gb_core::cpu::FLAG_N_MASK;
use gb_core::cpu::FLAG_Z_MASK;
use gb_core::memory::MemmoryMapper;
use gb_core::memory::Ram;

/// A CPU over one writable 256-byte region at [0x0000, 0x00FF] holding the
/// given program, and one writable stack page ending at the power-on SP.
fn cpu_with_program(program: &[u8]) -> Cpu {
    let mut bus = MemmoryMapper::new();
    bus.add_region(0x0000, 0x00FF, Ram::new(256));
    bus.add_region(0xED00, 0xEDFF, Ram::new(256));
    for (i, b) in program.iter().enumerate() {
        bus.write(i as u16, *b);
    }
    Cpu::new(bus)
}

fn flags_byte(cpu: &Cpu) -> u8 {
    (cpu.get_register_u16(Registers::AF) % 256) as u8
}

#[test]
fn pair_half_consistency() {
    let mut cpu = cpu_with_program(&[]);
    cpu.set_register(Registers::B, 0xAB);
    cpu.set_register(Registers::C, 0xCD);
    assert_eq!(cpu.get_register_u16(Registers::BC), 0xABCD);
    assert_eq!(cpu.get_register(Registers::B), 0xAB);
    assert_eq!(cpu.get_register(Registers::C), 0xCD);
    cpu.set_register(Registers::D, 0x12);
    cpu.set_register(Registers::E, 0x34);
    assert_eq!(cpu.get_register_u16(Registers::DE), 0x1234);
    cpu.set_register(Registers::H, 0xFF);
    cpu.set_register(Registers::L, 0x00);
    assert_eq!(cpu.get_register_u16(Registers::HL), 0xFF00);
    cpu.set_register(Registers::A, 0x80);
    cpu.set_flag(Flags::C, true);
    assert_eq!(cpu.get_register_u16(Registers::AF), 0x8010);
}

#[test]
fn reset_restores_power_on_state() {
    let mut cpu = cpu_with_program(&[]);
    cpu.set_register(Registers::A, 7);
    cpu.set_flag(Flags::Z, true);
    cpu.push(0x11);
    cpu.reset();
    assert_eq!(cpu.get_register(Registers::A), 0);
    assert_eq!(cpu.get_register_u16(Registers::SP), 0xEDFF);
    assert_eq!(cpu.get_register_u16(Registers::PC), 0);
    assert_eq!(flags_byte(&cpu), 0);
}

#[test]
fn register_from_byte_decoding() {
    let cpu = cpu_with_program(&[]);
    assert_eq!(cpu.get_register_from_byte(0), Registers::B);
    assert_eq!(cpu.get_register_from_byte(1), Registers::C);
    assert_eq!(cpu.get_register_from_byte(2), Registers::D);
    assert_eq!(cpu.get_register_from_byte(3), Registers::E);
    assert_eq!(cpu.get_register_from_byte(4), Registers::H);
    assert_eq!(cpu.get_register_from_byte(5), Registers::L);
    assert_eq!(cpu.get_register_from_byte(6), Registers::HL);
    assert_eq!(cpu.get_register_from_byte(7), Registers::A);
}

#[test]
fn fetch_advances_pc_in_order() {
    let mut cpu = cpu_with_program(&[0x10, 0x20, 0x30, 0x40]);
    assert_eq!(cpu.fetch(), 0x10);
    assert_eq!(cpu.fetch(), 0x20);
    assert_eq!(cpu.fetch(), 0x30);
    assert_eq!(cpu.get_register_u16(Registers::PC), 3);
}

#[test]
fn stack_round_trip_single_byte() {
    let mut cpu = cpu_with_program(&[]);
    let sp0 = cpu.get_register_u16(Registers::SP);
    cpu.push(0xA7);
    assert_eq!(cpu.get_register_u16(Registers::SP), sp0 - 1);
    assert_eq!(cpu.pop(), 0xA7);
    assert_eq!(cpu.get_register_u16(Registers::SP), sp0);
}

#[test]
fn stack_round_trip_word_high_pushed_first() {
    let mut cpu = cpu_with_program(&[]);
    let sp0 = cpu.get_register_u16(Registers::SP);
    let value: u16 = 0xBEEF;
    cpu.push((value >> 8) as u8);
    cpu.push((value & 0xFF) as u8);
    let lo = cpu.pop();
    let hi = cpu.pop();
    assert_eq!(lo, 0xEF);
    assert_eq!(hi, 0xBE);
    assert_eq!(((hi as u16) << 8) | lo as u16, value);
    assert_eq!(cpu.get_register_u16(Registers::SP), sp0);
}

#[test]
fn step_load_immediate_into_a() {
    let mut cpu = cpu_with_program(&[0x3E, 0x05]);
    let flags_before = flags_byte(&cpu);
    cpu.step();
    assert_eq!(cpu.get_register(Registers::A), 0x05);
    assert_eq!(cpu.get_register_u16(Registers::PC), 2);
    assert_eq!(flags_byte(&cpu), flags_before);
}

#[test]
fn load_register_to_register() {
    let mut cpu = cpu_with_program(&[]);
    cpu.set_register(Registers::C, 0x5A);
    let cycles = cpu.execute(0x41); // LD B, C
    assert_eq!(cpu.get_register(Registers::B), 0x5A);
    assert_eq!(cycles, 4);
}

#[test]
fn load_through_hl_memory_operand() {
    let mut cpu = cpu_with_program(&[]);
    cpu.set_register(Registers::H, 0x00);
    cpu.set_register(Registers::L, 0x20);
    cpu.set_register(Registers::A, 0x9C);
    let cycles = cpu.execute(0x77); // LD (HL), A
    assert_eq!(cycles, 8);
    let cycles2 = cpu.execute(0x46); // LD B, (HL)
    assert_eq!(cpu.get_register(Registers::B), 0x9C);
    assert_eq!(cycles2, 8);
}

#[test]
fn add_sets_half_carry_exactly() {
    let mut cpu = cpu_with_program(&[]);
    cpu.set_register(Registers::A, 0x0F);
    cpu.set_register(Registers::B, 0x01);
    cpu.execute(0x80); // ADD A, B
    assert_eq!(cpu.get_register(Registers::A), 0x10);
    assert_eq!(flags_byte(&cpu), FLAG_H_MASK);
}

#[test]
fn add_sets_carry_and_zero_on_wrap() {
    let mut cpu = cpu_with_program(&[]);
    cpu.set_register(Registers::A, 0xFF);
    cpu.set_register(Registers::B, 0x01);
    cpu.execute(0x80); // ADD A, B
    assert_eq!(cpu.get_register(Registers::A), 0x00);
    assert_eq!(flags_byte(&cpu), FLAG_Z_MASK | FLAG_H_MASK | FLAG_C_MASK);
}

#[test]
fn adc_consumes_carry_in() {
    let mut cpu = cpu_with_program(&[]);
    cpu.set_register(Registers::A, 0x10);
    cpu.set_register(Registers::B, 0x01);
    cpu.set_flag(Flags::C, true);
    cpu.execute(0x88); // ADC A, B
    assert_eq!(cpu.get_register(Registers::A), 0x12);
    assert_eq!(flags_byte(&cpu), 0);
}

#[test]
fn sub_of_equal_values_sets_zero_and_subtract() {
    let mut cpu = cpu_with_program(&[]);
    cpu.set_register(Registers::A, 0x3C);
    cpu.set_register(Registers::B, 0x3C);
    cpu.execute(0x90); // SUB A, B
    assert_eq!(cpu.get_register(Registers::A), 0);
    assert_eq!(flags_byte(&cpu), FLAG_Z_MASK | FLAG_N_MASK);
}

#[test]
fn sub_borrow_sets_carry_and_half() {
    let mut cpu = cpu_with_program(&[]);
    cpu.set_register(Registers::A, 0x10);
    cpu.set_register(Registers::B, 0x21);
    cpu.execute(0x90); // SUB A, B
    assert_eq!(cpu.get_register(Registers::A), 0xEF);
    assert_eq!(flags_byte(&cpu), FLAG_N_MASK | FLAG_H_MASK | FLAG_C_MASK);
}

#[test]
fn and_sets_half_carry_flag_only() {
    let mut cpu = cpu_with_program(&[]);
    cpu.set_register(Registers::A, 0xF0);
    cpu.set_register(Registers::C, 0x0F);
    cpu.execute(0xA1); // AND A, C
    assert_eq!(cpu.get_register(Registers::A), 0x00);
    assert_eq!(flags_byte(&cpu), FLAG_Z_MASK | FLAG_H_MASK);
}

#[test]
fn xor_with_self_clears_a_and_sets_zero() {
    let mut cpu = cpu_with_program(&[]);
    cpu.set_register(Registers::A, 0x5D);
    cpu.execute(0xAF); // XOR A, A
    assert_eq!(cpu.get_register(Registers::A), 0);
    assert_eq!(flags_byte(&cpu), FLAG_Z_MASK);
}

#[test]
fn or_combines_bits() {
    let mut cpu = cpu_with_program(&[]);
    cpu.set_register(Registers::A, 0x50);
    cpu.set_register(Registers::E, 0x05);
    cpu.execute(0xB3); // OR A, E
    assert_eq!(cpu.get_register(Registers::A), 0x55);
    assert_eq!(flags_byte(&cpu), 0);
}

#[test]
fn cp_compares_without_changing_a() {
    let mut cpu = cpu_with_program(&[]);
    cpu.set_register(Registers::A, 0x42);
    cpu.set_register(Registers::D, 0x42);
    cpu.execute(0xBA); // CP A, D
    assert_eq!(cpu.get_register(Registers::A), 0x42);
    assert_eq!(flags_byte(&cpu), FLAG_Z_MASK | FLAG_N_MASK);
}

#[test]
fn alu_immediate_operand() {
    let mut cpu = cpu_with_program(&[0xC6, 0x07]); // ADD A, d8
    cpu.step();
    assert_eq!(cpu.get_register(Registers::A), 0x07);
    assert_eq!(cpu.get_register_u16(Registers::PC), 2);
}

#[test]
fn inc_preserves_carry_flag() {
    let mut cpu = cpu_with_program(&[]);
    cpu.set_flag(Flags::C, true);
    cpu.set_register(Registers::B, 0xFF);
    cpu.execute(0x04); // INC B
    assert_eq!(cpu.get_register(Registers::B), 0x00);
    assert_eq!(flags_byte(&cpu), FLAG_Z_MASK | FLAG_H_MASK | FLAG_C_MASK);
}

#[test]
fn dec_preserves_carry_flag() {
    let mut cpu = cpu_with_program(&[]);
    cpu.set_flag(Flags::C, true);
    cpu.set_register(Registers::B, 0x10);
    cpu.execute(0x05); // DEC B
    assert_eq!(cpu.get_register(Registers::B), 0x0F);
    assert_eq!(flags_byte(&cpu), FLAG_N_MASK | FLAG_H_MASK | FLAG_C_MASK);
}

#[test]
fn loads_leave_flags_untouched() {
    let mut cpu = cpu_with_program(&[0x06, 0xEE]); // LD B, d8
    cpu.set_flag(Flags::Z, true);
    cpu.set_flag(Flags::C, true);
    let before = flags_byte(&cpu);
    cpu.step();
    assert_eq!(cpu.get_register(Registers::B), 0xEE);
    assert_eq!(flags_byte(&cpu), before);
    cpu.execute(0x48); // LD C, B
    assert_eq!(cpu.get_register(Registers::C), 0xEE);
    assert_eq!(flags_byte(&cpu), before);
}

#[test]
fn jp_sets_pc_little_endian() {
    let mut cpu = cpu_with_program(&[0xC3, 0x34, 0x12]);
    cpu.step();
    assert_eq!(cpu.get_register_u16(Registers::PC), 0x1234);
}

#[test]
fn push_pop_pair_through_opcodes() {
    let mut cpu = cpu_with_program(&[]);
    cpu.set_register(Registers::B, 0xAB);
    cpu.set_register(Registers::C, 0xCD);
    let sp0 = cpu.get_register_u16(Registers::SP);
    let cycles = cpu.execute(0xC5); // PUSH BC
    assert_eq!(cycles, 16);
    assert_eq!(cpu.get_register_u16(Registers::SP), sp0 - 2);
    cpu.set_register(Registers::B, 0);
    cpu.set_register(Registers::C, 0);
    let cycles2 = cpu.execute(0xC1); // POP BC
    assert_eq!(cycles2, 12);
    assert_eq!(cpu.get_register_u16(Registers::BC), 0xABCD);
    assert_eq!(cpu.get_register_u16(Registers::SP), sp0);
}

#[test]
fn pop_af_clears_flag_low_nibble() {
    let mut cpu = cpu_with_program(&[]);
    cpu.push(0x12); // popped last, into A
    cpu.push(0xFF); // popped first, into flags
    cpu.execute(0xF1); // POP AF
    assert_eq!(cpu.get_register(Registers::A), 0x12);
    assert_eq!(flags_byte(&cpu), 0xF0);
}

#[test]
fn undefined_opcode_is_a_noop() {
    let mut cpu = cpu_with_program(&[]);
    cpu.set_register(Registers::A, 0x33);
    let pc0 = cpu.get_register_u16(Registers::PC);
    let cycles = cpu.execute(0xD3);
    assert_eq!(cycles, 4);
    assert_eq!(cpu.get_register(Registers::A), 0x33);
    assert_eq!(cpu.get_register_u16(Registers::PC), pc0);
}

#[test]
fn fetch_wraps_at_top_of_address_space() {
    let mut jump = cpu_with_program(&[0xC3, 0xFF, 0xFF]);
    jump.step();
    assert_eq!(jump.get_register_u16(Registers::PC), 0xFFFF);
    let b = jump.fetch(); // 0xFFFF is unmapped: reads 0, PC wraps to 0
    assert_eq!(b, 0);
    assert_eq!(jump.get_register_u16(Registers::PC), 0);
}

#[test]
fn get_flag_reads_each_bit() {
    let mut cpu = cpu_with_program(&[]);
    cpu.set_flag(Flags::N, true);
    cpu.set_flag(Flags::H, true);
    assert!(!cpu.get_flag(Flags::Z));
    assert!(cpu.get_flag(Flags::N));
    assert!(cpu.get_flag(Flags::H));
    assert!(!cpu.get_flag(Flags::C));
    cpu.set_flag(Flags::N, false);
    assert!(!cpu.get_flag(Flags::N));
    assert!(cpu.get_flag(Flags::H));
}

#[test]
fn sp_pc_low_byte_access() {
    let mut cpu = cpu_with_program(&[]);
    assert_eq!(cpu.get_register(Registers::SP), 0xFF); // low byte of 0xEDFF
    cpu.set_register(Registers::PC, 0x7F);
    assert_eq!(cpu.get_register_u16(Registers::PC), 0x007F);
    assert_eq!(cpu.get_register(Registers::PC), 0x7F);
    // writing the low byte of SP keeps its high byte
    cpu.set_register(Registers::SP, 0x12);
    assert_eq!(cpu.get_register_u16(Registers::SP), 0xED12);
}
