use gb_core::cpu::Cpu;
use gb_core::cpu::Flags;
use gb_core::cpu::Registers;
use gb_core::cpu::FLAG_C_MASK;
use gb_core::cpu::FLAG_H_MASK;
use gb_core::cpu::FLAG_N_MASK;
use gb_core::cpu::FLAG_Z_MASK;
use gb_core::memory::MemmoryMapper;
use gb_core::memory::Ram;

/// A CPU over one writable 256-byte region at [0x0000, 0x00FF] holding the
/// given program, and one writable stack page ending at the power-on SP.
fn cpu_over(program: &[u8]) -> Cpu {
    let mut bus = MemmoryMapper::new();
    bus.add_region(0x0000, 0x00FF, Ram::new(256));
    bus.add_region(0xED00, 0xEDFF, Ram::new(256));
    for (i, b) in program.iter().enumerate() {
        bus.write(i as u16, *b);
    }
    Cpu::new(bus)
}

fn flags_of(cpu: &Cpu) -> u8 {
    (cpu.get_register_u16(Registers::AF) % 256) as u8
}

#[test]
fn ld_rr_d16_loads_pairs_and_sp() {
    let mut cpu = cpu_over(&[0x01, 0xCD, 0xAB, 0x31, 0x34, 0x12]);
    cpu.step();
    assert_eq!(cpu.get_register_u16(Registers::BC), 0xABCD);
    cpu.step();
    assert_eq!(cpu.get_register_u16(Registers::SP), 0x1234);
    assert_eq!(cpu.get_register_u16(Registers::PC), 6);
    assert_eq!(flags_of(&cpu), 0);
}

#[test]
fn ld_indirect_stores_and_loads_a() {
    let mut cpu = cpu_over(&[]);
    cpu.set_register(Registers::B, 0x00);
    cpu.set_register(Registers::C, 0x40);
    cpu.set_register(Registers::A, 0x77);
    cpu.execute(0x02); // LD (BC), A
    cpu.set_register(Registers::A, 0x00);
    cpu.execute(0x0A); // LD A, (BC)
    assert_eq!(cpu.get_register(Registers::A), 0x77);
}

#[test]
fn ld_hl_inc_dec_post_step() {
    let mut cpu = cpu_over(&[]);
    cpu.set_register(Registers::H, 0x00);
    cpu.set_register(Registers::L, 0x20);
    cpu.set_register(Registers::A, 0x11);
    cpu.execute(0x22); // LD (HL+), A
    assert_eq!(cpu.get_register_u16(Registers::HL), 0x0021);
    cpu.set_register(Registers::A, 0x22);
    cpu.execute(0x32); // LD (HL-), A
    assert_eq!(cpu.get_register_u16(Registers::HL), 0x0020);
    cpu.execute(0x2A); // LD A, (HL+): reads back the first store
    assert_eq!(cpu.get_register(Registers::A), 0x11);
    assert_eq!(cpu.get_register_u16(Registers::HL), 0x0021);
    cpu.execute(0x3A); // LD A, (HL-): reads back the second store
    assert_eq!(cpu.get_register(Registers::A), 0x22);
    assert_eq!(cpu.get_register_u16(Registers::HL), 0x0020);
}

#[test]
fn inc16_dec16_wrap_without_flags() {
    let mut cpu = cpu_over(&[]);
    cpu.set_flag(Flags::Z, true);
    cpu.set_register(Registers::B, 0xFF);
    cpu.set_register(Registers::C, 0xFF);
    cpu.execute(0x03); // INC BC
    assert_eq!(cpu.get_register_u16(Registers::BC), 0x0000);
    assert_eq!(flags_of(&cpu), FLAG_Z_MASK);
    cpu.execute(0x0B); // DEC BC
    assert_eq!(cpu.get_register_u16(Registers::BC), 0xFFFF);
    assert_eq!(flags_of(&cpu), FLAG_Z_MASK);
}

#[test]
fn add_hl_sets_half_carry_and_keeps_zero() {
    let mut cpu = cpu_over(&[]);
    cpu.set_flag(Flags::Z, true);
    cpu.set_register(Registers::H, 0x0F);
    cpu.set_register(Registers::L, 0xFF);
    cpu.set_register(Registers::B, 0x00);
    cpu.set_register(Registers::C, 0x01);
    cpu.execute(0x09); // ADD HL, BC
    assert_eq!(cpu.get_register_u16(Registers::HL), 0x1000);
    assert_eq!(flags_of(&cpu), FLAG_Z_MASK | FLAG_H_MASK);
}

#[test]
fn add_hl_carry_out_of_bit_15() {
    let mut cpu = cpu_over(&[]);
    cpu.set_register(Registers::H, 0xFF);
    cpu.set_register(Registers::L, 0xFF);
    cpu.set_register(Registers::D, 0x00);
    cpu.set_register(Registers::E, 0x02);
    cpu.execute(0x19); // ADD HL, DE
    assert_eq!(cpu.get_register_u16(Registers::HL), 0x0001);
    assert_eq!(flags_of(&cpu), FLAG_H_MASK | FLAG_C_MASK);
}

#[test]
fn rotates_move_bits_through_carry() {
    let mut cpu = cpu_over(&[]);
    cpu.set_register(Registers::A, 0x85);
    cpu.execute(0x07); // RLCA
    assert_eq!(cpu.get_register(Registers::A), 0x0B);
    assert_eq!(flags_of(&cpu), FLAG_C_MASK);
    cpu.set_register(Registers::A, 0x01);
    cpu.execute(0x0F); // RRCA
    assert_eq!(cpu.get_register(Registers::A), 0x80);
    assert_eq!(flags_of(&cpu), FLAG_C_MASK);
    cpu.set_register(Registers::A, 0x01);
    cpu.execute(0x1F); // RRA: carry set, so bit 7 comes in set
    assert_eq!(cpu.get_register(Registers::A), 0x80);
    assert_eq!(flags_of(&cpu), FLAG_C_MASK);
    cpu.set_register(Registers::A, 0x40);
    cpu.execute(0x17); // RLA: carry set, so bit 0 comes in set
    assert_eq!(cpu.get_register(Registers::A), 0x81);
    assert_eq!(flags_of(&cpu), 0);
}

#[test]
fn daa_adjusts_bcd_addition() {
    let mut cpu = cpu_over(&[]);
    cpu.set_register(Registers::A, 0x15);
    cpu.set_register(Registers::B, 0x27);
    cpu.execute(0x80); // ADD A, B: 0x3C, not valid BCD
    cpu.execute(0x27); // DAA
    assert_eq!(cpu.get_register(Registers::A), 0x42);
    assert_eq!(flags_of(&cpu), 0);
}

#[test]
fn daa_adjusts_bcd_subtraction() {
    let mut cpu = cpu_over(&[]);
    cpu.set_register(Registers::A, 0x20);
    cpu.set_register(Registers::B, 0x13);
    cpu.execute(0x90); // SUB A, B: 0x0D with H borrow
    cpu.execute(0x27); // DAA
    assert_eq!(cpu.get_register(Registers::A), 0x07);
    assert_eq!(flags_of(&cpu), FLAG_N_MASK);
}

#[test]
fn cpl_scf_ccf_flag_effects() {
    let mut cpu = cpu_over(&[]);
    cpu.set_flag(Flags::Z, true);
    cpu.set_register(Registers::A, 0x35);
    cpu.execute(0x2F); // CPL
    assert_eq!(cpu.get_register(Registers::A), 0xCA);
    assert_eq!(flags_of(&cpu), FLAG_Z_MASK | FLAG_N_MASK | FLAG_H_MASK);
    cpu.execute(0x37); // SCF
    assert_eq!(flags_of(&cpu), FLAG_Z_MASK | FLAG_C_MASK);
    cpu.execute(0x3F); // CCF
    assert_eq!(flags_of(&cpu), FLAG_Z_MASK);
    cpu.execute(0x3F); // CCF again
    assert_eq!(flags_of(&cpu), FLAG_Z_MASK | FLAG_C_MASK);
}

#[test]
fn jr_jumps_backwards_and_forwards() {
    let mut back = cpu_over(&[0x18, 0xFE]); // JR -2: back to this instruction
    back.step();
    assert_eq!(back.get_register_u16(Registers::PC), 0x0000);
    let mut fwd = cpu_over(&[0x18, 0x10]);
    fwd.step();
    assert_eq!(fwd.get_register_u16(Registers::PC), 0x0012);
}

#[test]
fn jr_conditional_consumes_operand_when_not_taken() {
    let mut cpu = cpu_over(&[0x28, 0x10]); // JR Z, +0x10 with Z clear
    let cycles = {
        let op = cpu.fetch();
        cpu.execute(op)
    };
    assert_eq!(cycles, 8);
    assert_eq!(cpu.get_register_u16(Registers::PC), 2);
    let mut taken = cpu_over(&[0x20, 0x10]); // JR NZ with Z clear
    taken.step();
    assert_eq!(taken.get_register_u16(Registers::PC), 0x0012);
}

#[test]
fn call_pushes_return_address_and_ret_restores_it() {
    let mut program = vec![0xCD, 0x10, 0x00]; // CALL 0x0010
    program.resize(0x10, 0);
    program.push(0xC9); // RET at 0x0010
    let mut cpu = cpu_over(&program);
    let sp0 = cpu.get_register_u16(Registers::SP);
    cpu.step();
    assert_eq!(cpu.get_register_u16(Registers::PC), 0x0010);
    assert_eq!(cpu.get_register_u16(Registers::SP), sp0 - 2);
    cpu.step();
    assert_eq!(cpu.get_register_u16(Registers::PC), 0x0003);
    assert_eq!(cpu.get_register_u16(Registers::SP), sp0);
}

#[test]
fn conditional_call_and_ret() {
    let mut cpu = cpu_over(&[0xC4, 0x20, 0x00]); // CALL NZ with Z clear: taken
    cpu.step();
    assert_eq!(cpu.get_register_u16(Registers::PC), 0x0020);
    let mut skip = cpu_over(&[0xCC, 0x20, 0x00]); // CALL Z with Z clear: not taken
    skip.step();
    assert_eq!(skip.get_register_u16(Registers::PC), 0x0003);
    let mut ret = cpu_over(&[]);
    ret.push(0x00);
    ret.push(0x30);
    let cycles = ret.execute(0xC0); // RET NZ with Z clear: taken
    assert_eq!(cycles, 20);
    assert_eq!(ret.get_register_u16(Registers::PC), 0x0030);
    let mut stay = cpu_over(&[]);
    let cycles2 = stay.execute(0xC8); // RET Z with Z clear: not taken
    assert_eq!(cycles2, 8);
    assert_eq!(stay.get_register_u16(Registers::PC), 0x0000);
}

#[test]
fn jp_conditional_taken_and_not() {
    let mut cpu = cpu_over(&[0xCA, 0x40, 0x00]); // JP Z with Z clear: not taken
    cpu.step();
    assert_eq!(cpu.get_register_u16(Registers::PC), 0x0003);
    let mut taken = cpu_over(&[0xC2, 0x40, 0x00]); // JP NZ with Z clear: taken
    taken.step();
    assert_eq!(taken.get_register_u16(Registers::PC), 0x0040);
}

#[test]
fn rst_jumps_to_fixed_vector() {
    let mut cpu = cpu_over(&[]);
    let sp0 = cpu.get_register_u16(Registers::SP);
    let cycles = cpu.execute(0xEF); // RST 0x28
    assert_eq!(cycles, 16);
    assert_eq!(cpu.get_register_u16(Registers::PC), 0x0028);
    assert_eq!(cpu.get_register_u16(Registers::SP), sp0 - 2);
    assert_eq!(cpu.pop(), 0x00); // pushed return address: old PC = 0
    assert_eq!(cpu.pop(), 0x00);
}

#[test]
fn ld_a16_sp_stores_sp_little_endian() {
    let mut cpu = cpu_over(&[0x08, 0x50, 0x00]); // LD (0x0050), SP
    cpu.step();
    assert_eq!(cpu.get_register_u16(Registers::PC), 3);
    cpu.set_register(Registers::H, 0x00);
    cpu.set_register(Registers::L, 0x50);
    cpu.execute(0x7E); // LD A, (HL)
    assert_eq!(cpu.get_register(Registers::A), 0xFF);
    cpu.set_register(Registers::L, 0x51);
    cpu.execute(0x7E);
    assert_eq!(cpu.get_register(Registers::A), 0xED);
}

#[test]
fn ldh_addresses_the_high_page() {
    let mut bus = MemmoryMapper::new();
    bus.add_region(0x0000, 0x00FF, Ram::new(256));
    bus.add_region(0xFF00, 0xFFFF, Ram::new(256));
    bus.write(0x0000, 0xE0); // LDH (0x80), A
    bus.write(0x0001, 0x80);
    bus.write(0x0002, 0xF0); // LDH A, (0x80)
    bus.write(0x0003, 0x80);
    let mut cpu = Cpu::new(bus);
    cpu.set_register(Registers::A, 0x5C);
    cpu.step();
    cpu.set_register(Registers::A, 0x00);
    cpu.step();
    assert_eq!(cpu.get_register(Registers::A), 0x5C);
    // LD (C), A and LD A, (C)
    cpu.set_register(Registers::C, 0x81);
    cpu.set_register(Registers::A, 0x9D);
    cpu.execute(0xE2);
    cpu.set_register(Registers::A, 0x00);
    cpu.execute(0xF2);
    assert_eq!(cpu.get_register(Registers::A), 0x9D);
}

#[test]
fn ld_ea_fa_absolute_a() {
    let mut cpu = cpu_over(&[0xEA, 0x60, 0x00, 0xFA, 0x60, 0x00]);
    cpu.set_register(Registers::A, 0x3B);
    cpu.step(); // LD (0x0060), A
    cpu.set_register(Registers::A, 0x00);
    cpu.step(); // LD A, (0x0060)
    assert_eq!(cpu.get_register(Registers::A), 0x3B);
}

#[test]
fn add_sp_signed_negative_offset() {
    let mut cpu = cpu_over(&[0xE8, 0xFE]); // ADD SP, -2
    cpu.step();
    assert_eq!(cpu.get_register_u16(Registers::SP), 0xEDFD);
    assert_eq!(flags_of(&cpu), FLAG_H_MASK | FLAG_C_MASK);
}

#[test]
fn ld_hl_sp_plus_offset() {
    let mut cpu = cpu_over(&[0xF8, 0x01]); // LD HL, SP+1
    cpu.step();
    assert_eq!(cpu.get_register_u16(Registers::HL), 0xEE00);
    assert_eq!(cpu.get_register_u16(Registers::SP), 0xEDFF);
    assert_eq!(flags_of(&cpu), FLAG_H_MASK | FLAG_C_MASK);
}

#[test]
fn ld_sp_hl_and_jp_hl() {
    let mut cpu = cpu_over(&[]);
    cpu.set_register(Registers::H, 0x12);
    cpu.set_register(Registers::L, 0x34);
    cpu.execute(0xF9); // LD SP, HL
    assert_eq!(cpu.get_register_u16(Registers::SP), 0x1234);
    let cycles = cpu.execute(0xE9); // JP HL
    assert_eq!(cycles, 4);
    assert_eq!(cpu.get_register_u16(Registers::PC), 0x1234);
}

#[test]
fn interrupt_and_power_opcodes_change_nothing() {
    for op in [0x10u8, 0x76, 0xF3, 0xFB] {
        let mut cpu = cpu_over(&[]);
        cpu.set_register(Registers::A, 0x44);
        cpu.set_flag(Flags::C, true);
        let cycles = cpu.execute(op);
        assert_eq!(cycles, 4);
        assert_eq!(cpu.get_register(Registers::A), 0x44);
        assert_eq!(cpu.get_register_u16(Registers::PC), 0);
        assert_eq!(flags_of(&cpu), FLAG_C_MASK);
    }
}

#[test]
fn illegal_opcodes_follow_the_noop_policy() {
    for op in [0xD3u8, 0xDB, 0xDD, 0xE3, 0xE4, 0xEB, 0xEC, 0xED, 0xF4, 0xFC, 0xFD, 0xCB] {
        let mut cpu = cpu_over(&[]);
        cpu.set_register(Registers::A, 0x31);
        let cycles = cpu.execute(op);
        assert_eq!(cycles, 4);
        assert_eq!(cpu.get_register(Registers::A), 0x31);
        assert_eq!(cpu.get_register_u16(Registers::PC), 0);
        assert_eq!(cpu.get_register_u16(Registers::SP), 0xEDFF);
    }
}
