//! CPU engine: the register file, the four condition flags packed into the
//! top nibble of the flag register, and the fetch-decode-execute cycle over
//! the memory bus.
//!
//! The engine owns exactly one bus, passed at construction. Register pairs
//! (AF, BC, DE, HL) are views composed from their 8-bit halves, never
//! separate storage. The low nibble of the flag register always reads as
//! zero; this is kept as an invariant of the engine.

use vstd::prelude::*;
use crate::memory::MemmoryMapper;
use crate::memory::RegionV;
use crate::memory::bus_read_spec;
use crate::memory::bus_write_spec;
use crate::memory::regions_wf;
use crate::memory::word_of;
use crate::memory::lo_byte;
use crate::memory::hi_byte;

verus! {

/// Bit of the flag register holding the Zero flag.
pub const FLAG_Z_MASK: u8 = 0x80;

/// Bit of the flag register holding the Subtract flag.
pub const FLAG_N_MASK: u8 = 0x40;

/// Bit of the flag register holding the Half-carry flag.
pub const FLAG_H_MASK: u8 = 0x20;

/// Bit of the flag register holding the Carry flag.
pub const FLAG_C_MASK: u8 = 0x10;

/// The four condition flags.
#[derive(Clone, Copy, Debug, PartialEq, Eq, Structural)]
pub enum Flags {
    Z,
    N,
    H,
    C,
}

/// Register selectors: the eight 8-bit registers, the two 16-bit registers,
/// and the four register-pair views.
#[derive(Clone, Copy, Debug, PartialEq, Eq, Structural)]
pub enum Registers {
    A,
    B,
    C,
    D,
    E,
    H,
    L,
    SP,
    PC,
    HL,
    AF,
    BC,
    DE,
}

/// Mathematical model of the engine: register bytes, 16-bit SP and PC, the
/// packed flag byte, and the model of the bus it owns.
#[verifier::ext_equal]
pub ghost struct CpuV {
    pub a: u8,
    pub b: u8,
    pub c: u8,
    pub d: u8,
    pub e: u8,
    pub h: u8,
    pub l: u8,
    pub sp: u16,
    pub pc: u16,
    pub flags: u8,
    pub mem: Seq<RegionV>,
}

pub open spec fn flag_z(flags: u8) -> bool {
    flags / 128 % 2 == 1
}

pub open spec fn flag_n(flags: u8) -> bool {
    flags / 64 % 2 == 1
}

pub open spec fn flag_h(flags: u8) -> bool {
    flags / 32 % 2 == 1
}

pub open spec fn flag_c(flags: u8) -> bool {
    flags / 16 % 2 == 1
}

/// The flag byte built from the four condition bits; the low nibble is zero.
pub open spec fn flags_pack(z: bool, n: bool, h: bool, c: bool) -> u8 {
    ((if z { 128int } else { 0int }) + (if n { 64int } else { 0int })
        + (if h { 32int } else { 0int }) + (if c { 16int } else { 0int })) as u8
}

/// Packing the four bits gives back exactly those bits, and a flag byte
/// whose low nibble is zero is exactly the packing of its four bits.
pub proof fn lemma_flags_pack(z: bool, n: bool, h: bool, c: bool)
    ensures
        flag_z(flags_pack(z, n, h, c)) == z,
        flag_n(flags_pack(z, n, h, c)) == n,
        flag_h(flags_pack(z, n, h, c)) == h,
        flag_c(flags_pack(z, n, h, c)) == c,
        flags_pack(z, n, h, c) % 16 == 0,
{
}

/// A flag byte with a zero low nibble is determined by its four flag bits.
pub proof fn lemma_flags_complete(flags: u8)
    requires
        flags % 16 == 0,
    ensures
        flags == flags_pack(flag_z(flags), flag_n(flags), flag_h(flags), flag_c(flags)),
{
}

pub open spec fn is_reg8(reg: Registers) -> bool {
    !(reg is HL || reg is AF || reg is BC || reg is DE)
}

pub open spec fn is_reg16(reg: Registers) -> bool {
    reg is AF || reg is BC || reg is DE || reg is HL || reg is SP || reg is PC
}

/// Value of an 8-bit register selector: one of the register bytes, or the
/// low byte of SP or PC.
pub open spec fn reg8_get(cpu: CpuV, reg: Registers) -> u8 {
    match reg {
        Registers::A => cpu.a,
        Registers::B => cpu.b,
        Registers::C => cpu.c,
        Registers::D => cpu.d,
        Registers::E => cpu.e,
        Registers::H => cpu.h,
        Registers::L => cpu.l,
        Registers::SP => (cpu.sp % 256) as u8,
        Registers::PC => (cpu.pc % 256) as u8,
        _ => 0u8,
    }
}

/// State after writing an 8-bit register selector; writing SP or PC
/// replaces only the low byte and keeps the high byte.
pub open spec fn reg8_set(cpu: CpuV, reg: Registers, value: u8) -> CpuV {
    match reg {
        Registers::A => CpuV { a: value, ..cpu },
        Registers::B => CpuV { b: value, ..cpu },
        Registers::C => CpuV { c: value, ..cpu },
        Registers::D => CpuV { d: value, ..cpu },
        Registers::E => CpuV { e: value, ..cpu },
        Registers::H => CpuV { h: value, ..cpu },
        Registers::L => CpuV { l: value, ..cpu },
        Registers::SP => CpuV { sp: (cpu.sp / 256 * 256 + value) as u16, ..cpu },
        Registers::PC => CpuV { pc: (cpu.pc / 256 * 256 + value) as u16, ..cpu },
        _ => cpu,
    }
}

/// Value of a 16-bit selector: a register pair composed from its halves
/// (high byte first in the name), or SP/PC directly. AF's low byte is the
/// flag byte.
pub open spec fn reg16_get(cpu: CpuV, reg: Registers) -> u16 {
    match reg {
        Registers::AF => word_of(cpu.flags, cpu.a),
        Registers::BC => word_of(cpu.c, cpu.b),
        Registers::DE => word_of(cpu.e, cpu.d),
        Registers::HL => word_of(cpu.l, cpu.h),
        Registers::SP => cpu.sp,
        Registers::PC => cpu.pc,
        _ => 0u16,
    }
}

/// The shared 3-bit operand-field decoding: 0..=5 and 7 name registers, 6
/// names memory at address HL.
pub open spec fn reg_from_byte_spec(byte: u8) -> Registers {
    if byte == 0 {
        Registers::B
    } else if byte == 1 {
        Registers::C
    } else if byte == 2 {
        Registers::D
    } else if byte == 3 {
        Registers::E
    } else if byte == 4 {
        Registers::H
    } else if byte == 5 {
        Registers::L
    } else if byte == 6 {
        Registers::HL
    } else {
        Registers::A
    }
}

/// The CPU engine: eight 8-bit registers, SP, PC, the packed flag byte, and
/// the one memory bus it drives.
pub struct Cpu {
    a: u8,
    b: u8,
    c: u8,
    d: u8,
    e: u8,
    h: u8,
    l: u8,
    sp: u16,
    pc: u16,
    flags: u8,
    memmap: MemmoryMapper,
    max_stack_size: u16,
}

impl View for Cpu {
    type V = CpuV;

    closed spec fn view(&self) -> CpuV {
        CpuV {
            a: self.a,
            b: self.b,
            c: self.c,
            d: self.d,
            e: self.e,
            h: self.h,
            l: self.l,
            sp: self.sp,
            pc: self.pc,
            flags: self.flags,
            mem: self.memmap@,
        }
    }
}

/// Engine well-formedness: the bus regions cover their ranges exactly and
/// the low nibble of the flag byte is zero.
pub open spec fn cpu_wf(cpu: CpuV) -> bool {
    &&& regions_wf(cpu.mem)
    &&& cpu.flags % 16 == 0
}

/// The power-on register state over a given bus: PC 0, SP at the stock
/// top-of-stack address, all registers and flags zero.
pub open spec fn power_on(mem: Seq<RegionV>) -> CpuV {
    CpuV {
        a: 0,
        b: 0,
        c: 0,
        d: 0,
        e: 0,
        h: 0,
        l: 0,
        sp: 0xEDFF,
        pc: 0,
        flags: 0,
        mem,
    }
}

impl Cpu {
    pub open spec fn wf(&self) -> bool {
        cpu_wf(self@)
    }

    /// A powered-on engine owning the given bus.
    pub fn new(memmap: MemmoryMapper) -> (cpu: Cpu)
        requires
            memmap.wf(),
        ensures
            cpu.wf(),
            cpu@ == power_on(memmap@),
    {
        Cpu {
            a: 0,
            b: 0,
            c: 0,
            d: 0,
            e: 0,
            h: 0,
            l: 0,
            sp: 0xEDFF,
            pc: 0,
            flags: 0,
            memmap,
            max_stack_size: 0xEDFF - 0xE000,
        }
    }

    /// Reinitializes every register, SP, PC and the flags to their power-on
    /// values; bus-owned memory is untouched.
    pub fn reset(&mut self)
        ensures
            final(self)@ == power_on(old(self)@.mem),
            final(self).wf() == regions_wf(old(self)@.mem),
    {
        self.a = 0;
        self.b = 0;
        self.c = 0;
        self.d = 0;
        self.e = 0;
        self.h = 0;
        self.l = 0;
        self.sp = 0xEDFF;
        self.pc = 0;
        self.flags = 0;
    }

    /// Reads one of the eight 8-bit registers, or the low byte of SP or PC.
    pub fn get_register(&self, reg: Registers) -> (value: u8)
        requires
            is_reg8(reg),
        ensures
            value == reg8_get(self@, reg),
    {
        match reg {
            Registers::A => self.a,
            Registers::B => self.b,
            Registers::C => self.c,
            Registers::D => self.d,
            Registers::E => self.e,
            Registers::H => self.h,
            Registers::L => self.l,
            Registers::SP => (self.sp % 256) as u8,
            Registers::PC => (self.pc % 256) as u8,
            _ => 0,
        }
    }

    /// Writes one of the eight 8-bit registers, or the low byte of SP or
    /// PC (their high byte is kept).
    pub fn set_register(&mut self, reg: Registers, value: u8)
        requires
            is_reg8(reg),
        ensures
            final(self)@ == reg8_set(old(self)@, reg, value),
            old(self).wf() ==> final(self).wf(),
    {
        match reg {
            Registers::A => self.a = value,
            Registers::B => self.b = value,
            Registers::C => self.c = value,
            Registers::D => self.d = value,
            Registers::E => self.e = value,
            Registers::H => self.h = value,
            Registers::L => self.l = value,
            Registers::SP => self.sp = self.sp / 256 * 256 + value as u16,
            Registers::PC => self.pc = self.pc / 256 * 256 + value as u16,
            _ => {},
        }
    }

    /// Composes a register pair (AF, BC, DE, HL) from its halves, or returns
    /// SP/PC directly.
    pub fn get_register_u16(&self, reg: Registers) -> (value: u16)
        requires
            is_reg16(reg),
        ensures
            value == reg16_get(self@, reg),
    {
        match reg {
            Registers::AF => (self.a as u16) * 256 + (self.flags as u16),
            Registers::BC => (self.b as u16) * 256 + (self.c as u16),
            Registers::DE => (self.d as u16) * 256 + (self.e as u16),
            Registers::HL => (self.h as u16) * 256 + (self.l as u16),
            Registers::SP => self.sp,
            Registers::PC => self.pc,
            _ => 0,
        }
    }

    /// The shared decoder for the 3-bit register-select field of the opcode
    /// encodings; value 6 denotes memory at address HL.
    pub fn get_register_from_byte(&self, byte: u8) -> (reg: Registers)
        ensures
            reg == reg_from_byte_spec(byte),
    {
        match byte {
            0x00 => Registers::B,
            0x01 => Registers::C,
            0x02 => Registers::D,
            0x03 => Registers::E,
            0x04 => Registers::H,
            0x05 => Registers::L,
            0x06 => Registers::HL,
            0x07 => Registers::A,
            _ => Registers::A,
        }
    }

    /// Reads one condition flag bit.
    pub fn get_flag(&self, flag: Flags) -> (value: bool)
        ensures
            value == match flag {
                Flags::Z => flag_z(self@.flags),
                Flags::N => flag_n(self@.flags),
                Flags::H => flag_h(self@.flags),
                Flags::C => flag_c(self@.flags),
            },
    {
        match flag {
            Flags::Z => self.flags / 128 % 2 == 1,
            Flags::N => self.flags / 64 % 2 == 1,
            Flags::H => self.flags / 32 % 2 == 1,
            Flags::C => self.flags / 16 % 2 == 1,
        }
    }

    /// Sets or clears one condition flag bit, leaving the other three
    /// bit-for-bit unchanged.
    pub fn set_flag(&mut self, flag: Flags, value: bool)
        requires
            old(self).wf(),
        ensures
            final(self).wf(),
            final(self)@ == (CpuV {
                flags: match flag {
                    Flags::Z => flags_pack(
                        value,
                        flag_n(old(self)@.flags),
                        flag_h(old(self)@.flags),
                        flag_c(old(self)@.flags),
                    ),
                    Flags::N => flags_pack(
                        flag_z(old(self)@.flags),
                        value,
                        flag_h(old(self)@.flags),
                        flag_c(old(self)@.flags),
                    ),
                    Flags::H => flags_pack(
                        flag_z(old(self)@.flags),
                        flag_n(old(self)@.flags),
                        value,
                        flag_c(old(self)@.flags),
                    ),
                    Flags::C => flags_pack(
                        flag_z(old(self)@.flags),
                        flag_n(old(self)@.flags),
                        flag_h(old(self)@.flags),
                        value,
                    ),
                },
                ..old(self)@
            }),
    {
        let z = self.flags / 128 % 2 == 1;
        let n = self.flags / 64 % 2 == 1;
        let h = self.flags / 32 % 2 == 1;
        let c = self.flags / 16 % 2 == 1;
        self.flags = match flag {
            Flags::Z => pack_flags(value, n, h, c),
            Flags::N => pack_flags(z, value, h, c),
            Flags::H => pack_flags(z, n, value, c),
            Flags::C => pack_flags(z, n, h, value),
        };
    }
}

/// Builds the flag byte from the four condition bits.
fn pack_flags(z: bool, n: bool, h: bool, c: bool) -> (flags: u8)
    ensures
        flags == flags_pack(z, n, h, c),
        flags % 16 == 0,
{
    (if z { 128u8 } else { 0u8 }) + (if n { 64u8 } else { 0u8 }) + (if h { 32u8 } else { 0u8 })
        + (if c { 16u8 } else { 0u8 })
}

/// A base address plus a signed 8-bit offset, wrapping in the 16-bit
/// address space.
fn signed_add16(base: u16, e: u8) -> (r: u16)
    ensures
        r == signed_add(base, e),
{
    if e < 0x80 {
        base.wrapping_add(e as u16)
    } else {
        base.wrapping_add(e as u16).wrapping_sub(0x100)
    }
}

/// State after one fetch: PC advanced by one, wrapping at the top of the
/// address space; nothing else changes.
pub open spec fn fetch_post(cpu: CpuV) -> CpuV {
    CpuV { pc: cpu.pc.wrapping_add(1), ..cpu }
}

/// The byte a fetch returns: the bus byte at the current PC.
pub open spec fn fetch_val(cpu: CpuV) -> u8 {
    bus_read_spec(cpu.mem, cpu.pc)
}

/// State after a push: SP decremented (wrapping), then the byte written to
/// the bus at the new SP.
pub open spec fn push_spec(cpu: CpuV, value: u8) -> CpuV {
    let sp2 = cpu.sp.wrapping_sub(1);
    CpuV { sp: sp2, mem: bus_write_spec(cpu.mem, sp2, value), ..cpu }
}

/// State after a pop: SP incremented (wrapping); memory is only read.
pub open spec fn pop_post(cpu: CpuV) -> CpuV {
    CpuV { sp: cpu.sp.wrapping_add(1), ..cpu }
}

/// The byte a pop returns: the bus byte at the current SP.
pub open spec fn pop_val(cpu: CpuV) -> u8 {
    bus_read_spec(cpu.mem, cpu.sp)
}

/// Address named by the HL pair.
pub open spec fn hl_addr(cpu: CpuV) -> u16 {
    word_of(cpu.l, cpu.h)
}

/// Value of a 3-bit operand field: a register byte, or the bus byte at HL
/// for field value 6.
pub open spec fn operand_get(cpu: CpuV, idx: u8) -> u8 {
    if idx == 6 {
        bus_read_spec(cpu.mem, hl_addr(cpu))
    } else {
        reg8_get(cpu, reg_from_byte_spec(idx))
    }
}

/// State after writing a 3-bit operand field: a register byte, or a bus
/// write at HL for field value 6.
pub open spec fn operand_set(cpu: CpuV, idx: u8, value: u8) -> CpuV {
    if idx == 6 {
        CpuV { mem: bus_write_spec(cpu.mem, hl_addr(cpu), value), ..cpu }
    } else {
        reg8_set(cpu, reg_from_byte_spec(idx), value)
    }
}

/// Result and flags of an 8-bit addition: Z from the result, N clear, H from
/// the low-nibble sum, C from the full carry-out.
pub open spec fn alu_add(a: u8, b: u8, carry_in: int) -> (u8, u8) {
    let r = ((a + b + carry_in) % 256) as u8;
    (r, flags_pack(r == 0, false, a % 16 + b % 16 + carry_in > 15, a + b + carry_in > 255))
}

/// Result and flags of an 8-bit subtraction: Z from the result, N set, H
/// from the low-nibble borrow, C from the full borrow.
pub open spec fn alu_sub(a: u8, b: u8, carry_in: int) -> (u8, u8) {
    let r = ((a - b - carry_in + 256) % 256) as u8;
    (r, flags_pack(r == 0, true, a % 16 < b % 16 + carry_in, a < b + carry_in))
}

/// Result and flags of one arithmetic/logic family member, selected by the
/// 3-bit family field: ADD, ADC, SUB, SBC, AND, XOR, OR, CP. AND sets H;
/// the logic family clears N, H (except AND) and C; CP discards the result.
pub open spec fn alu_apply(fam: u8, a: u8, b: u8, cin: bool) -> (u8, u8) {
    let ci: int = if cin { 1 } else { 0 };
    if fam == 0 {
        alu_add(a, b, 0)
    } else if fam == 1 {
        alu_add(a, b, ci)
    } else if fam == 2 {
        alu_sub(a, b, 0)
    } else if fam == 3 {
        alu_sub(a, b, ci)
    } else if fam == 4 {
        ((a & b), flags_pack((a & b) == 0, false, true, false))
    } else if fam == 5 {
        ((a ^ b), flags_pack((a ^ b) == 0, false, false, false))
    } else if fam == 6 {
        ((a | b), flags_pack((a | b) == 0, false, false, false))
    } else {
        (a, alu_sub(a, b, 0).1)
    }
}

/// Result and flags of INC on one byte: Z, N clear, H from the low nibble;
/// the carry flag is left unchanged.
pub open spec fn inc_result(v: u8, flags: u8) -> (u8, u8) {
    let r = ((v + 1) % 256) as u8;
    (r, flags_pack(r == 0, false, v % 16 == 15, flag_c(flags)))
}

/// Result and flags of DEC on one byte: Z, N set, H from the low-nibble
/// borrow; the carry flag is left unchanged.
pub open spec fn dec_result(v: u8, flags: u8) -> (u8, u8) {
    let r = ((v + 255) % 256) as u8;
    (r, flags_pack(r == 0, true, v % 16 == 0, flag_c(flags)))
}

/// Value of a 2-bit stack-pair field: BC, DE, HL or AF.
pub open spec fn pair_get(cpu: CpuV, sel: u8) -> u16 {
    if sel == 0 {
        word_of(cpu.c, cpu.b)
    } else if sel == 1 {
        word_of(cpu.e, cpu.d)
    } else if sel == 2 {
        word_of(cpu.l, cpu.h)
    } else {
        word_of(cpu.flags, cpu.a)
    }
}

/// State after writing a 2-bit stack-pair field from two bytes; writing AF
/// clears the low nibble of the flag byte, which always reads as zero.
pub open spec fn pair_set(cpu: CpuV, sel: u8, lo: u8, hi: u8) -> CpuV {
    if sel == 0 {
        CpuV { b: hi, c: lo, ..cpu }
    } else if sel == 1 {
        CpuV { d: hi, e: lo, ..cpu }
    } else if sel == 2 {
        CpuV { h: hi, l: lo, ..cpu }
    } else {
        CpuV { a: hi, flags: (lo - lo % 16) as u8, ..cpu }
    }
}

/// Effect of one 8-bit immediate load: the immediate is fetched, then
/// written to the operand field named by bits 3..=5 of the opcode.
pub open spec fn ld_d8_spec(cpu: CpuV, op: u8) -> (CpuV, u8) {
    let v = fetch_val(cpu);
    let c1 = fetch_post(cpu);
    let dst = (op / 8) % 8;
    (operand_set(c1, dst, v), if dst == 6 { 12u8 } else { 8u8 })
}

/// Effect of INC on the operand field named by bits 3..=5 of the opcode.
pub open spec fn inc_spec(cpu: CpuV, op: u8) -> (CpuV, u8) {
    let idx = (op / 8) % 8;
    let rf = inc_result(operand_get(cpu, idx), cpu.flags);
    let c1 = operand_set(cpu, idx, rf.0);
    (CpuV { flags: rf.1, ..c1 }, if idx == 6 { 12u8 } else { 4u8 })
}

/// Effect of DEC on the operand field named by bits 3..=5 of the opcode.
pub open spec fn dec_spec(cpu: CpuV, op: u8) -> (CpuV, u8) {
    let idx = (op / 8) % 8;
    let rf = dec_result(operand_get(cpu, idx), cpu.flags);
    let c1 = operand_set(cpu, idx, rf.0);
    (CpuV { flags: rf.1, ..c1 }, if idx == 6 { 12u8 } else { 4u8 })
}

/// Effect of one register-to-register load: source field in bits 0..=2,
/// destination field in bits 3..=5, memory at HL for field value 6.
pub open spec fn ld_rr_spec(cpu: CpuV, op: u8) -> (CpuV, u8) {
    let src = op % 8;
    let dst = (op / 8) % 8;
    let v = operand_get(cpu, src);
    (operand_set(cpu, dst, v), if src == 6 || dst == 6 { 8u8 } else { 4u8 })
}

/// Effect of one arithmetic/logic instruction over the operand field in
/// bits 0..=2, family in bits 3..=5: A and all four flags are updated (CP
/// leaves A).
pub open spec fn alu_r_spec(cpu: CpuV, op: u8) -> (CpuV, u8) {
    let fam = (op / 8) % 8;
    let src = op % 8;
    let rf = alu_apply(fam, cpu.a, operand_get(cpu, src), flag_c(cpu.flags));
    (CpuV { a: rf.0, flags: rf.1, ..cpu }, if src == 6 { 8u8 } else { 4u8 })
}

/// Effect of one arithmetic/logic instruction over a fetched immediate.
pub open spec fn alu_d8_spec(cpu: CpuV, op: u8) -> (CpuV, u8) {
    let b = fetch_val(cpu);
    let c1 = fetch_post(cpu);
    let fam = (op / 8) % 8;
    let rf = alu_apply(fam, cpu.a, b, flag_c(cpu.flags));
    (CpuV { a: rf.0, flags: rf.1, ..c1 }, 8)
}

/// Effect of the absolute jump: a little-endian 16-bit target is fetched
/// and becomes the new PC.
pub open spec fn jp_spec(cpu: CpuV) -> (CpuV, u8) {
    let lo = fetch_val(cpu);
    let c1 = fetch_post(cpu);
    let hi = fetch_val(c1);
    let c2 = fetch_post(c1);
    (CpuV { pc: word_of(lo, hi), ..c2 }, 16)
}

/// Effect of PUSH of the pair named by bits 4..=5: high byte pushed first.
pub open spec fn push_op_spec(cpu: CpuV, op: u8) -> (CpuV, u8) {
    let v = pair_get(cpu, (op / 16) % 4);
    let c1 = push_spec(cpu, hi_byte(v));
    (push_spec(c1, lo_byte(v)), 16)
}

/// Effect of POP of the pair named by bits 4..=5: low byte popped first.
pub open spec fn pop_op_spec(cpu: CpuV, op: u8) -> (CpuV, u8) {
    let lo = pop_val(cpu);
    let c1 = pop_post(cpu);
    let hi = pop_val(c1);
    let c2 = pop_post(c1);
    (pair_set(c2, (op / 16) % 4, lo, hi), 12)
}

/// A 16-bit register-pair field of the 16-bit load/arithmetic encodings:
/// BC, DE, HL or SP (unlike the stack-pair field, where 3 names AF).
pub open spec fn rp_get(cpu: CpuV, sel: u8) -> u16 {
    if sel == 0 {
        word_of(cpu.c, cpu.b)
    } else if sel == 1 {
        word_of(cpu.e, cpu.d)
    } else if sel == 2 {
        word_of(cpu.l, cpu.h)
    } else {
        cpu.sp
    }
}

/// State after writing a 16-bit register-pair field (BC, DE, HL or SP).
pub open spec fn rp_set(cpu: CpuV, sel: u8, v: u16) -> CpuV {
    if sel == 0 {
        CpuV { b: hi_byte(v), c: lo_byte(v), ..cpu }
    } else if sel == 1 {
        CpuV { d: hi_byte(v), e: lo_byte(v), ..cpu }
    } else if sel == 2 {
        CpuV { h: hi_byte(v), l: lo_byte(v), ..cpu }
    } else {
        CpuV { sp: v, ..cpu }
    }
}

/// The 2-bit condition field: not-zero, zero, no-carry, carry.
pub open spec fn cond_holds(flags: u8, cc: u8) -> bool {
    if cc == 0 {
        !flag_z(flags)
    } else if cc == 1 {
        flag_z(flags)
    } else if cc == 2 {
        !flag_c(flags)
    } else {
        flag_c(flags)
    }
}

/// A base address plus a signed 8-bit offset, wrapping in the 16-bit
/// address space.
pub open spec fn signed_add(base: u16, e: u8) -> u16 {
    if e < 0x80 {
        base.wrapping_add(e as u16)
    } else {
        base.wrapping_add(e as u16).wrapping_sub(0x100)
    }
}

/// Effect of one 16-bit immediate load: the little-endian word is fetched
/// into BC, DE, HL or SP.
pub open spec fn ld_rr_d16_spec(cpu: CpuV, op: u8) -> (CpuV, u8) {
    let lo = fetch_val(cpu);
    let c1 = fetch_post(cpu);
    let hi = fetch_val(c1);
    let c2 = fetch_post(c1);
    (rp_set(c2, (op / 16) % 4, word_of(lo, hi)), 12)
}

/// The address of the indirect-A load encodings: BC, DE, or HL for both
/// post-increment and post-decrement forms.
pub open spec fn ind_addr(cpu: CpuV, sel: u8) -> u16 {
    if sel == 0 {
        word_of(cpu.c, cpu.b)
    } else if sel == 1 {
        word_of(cpu.e, cpu.d)
    } else {
        word_of(cpu.l, cpu.h)
    }
}

/// HL after an indirect-A access: incremented for the HL+ form,
/// decremented for the HL- form, untouched for BC and DE.
pub open spec fn ind_update_hl(cpu: CpuV, sel: u8) -> CpuV {
    if sel == 2 {
        let nhl = hl_addr(cpu).wrapping_add(1);
        CpuV { h: hi_byte(nhl), l: lo_byte(nhl), ..cpu }
    } else if sel == 3 {
        let nhl = hl_addr(cpu).wrapping_sub(1);
        CpuV { h: hi_byte(nhl), l: lo_byte(nhl), ..cpu }
    } else {
        cpu
    }
}

/// Effect of storing A through BC, DE, HL+ or HL-: a bus write, then the
/// HL post-step; no flag effects.
pub open spec fn ld_ind_a_spec(cpu: CpuV, op: u8) -> (CpuV, u8) {
    let sel = (op / 16) % 4;
    let c1 = CpuV { mem: bus_write_spec(cpu.mem, ind_addr(cpu, sel), cpu.a), ..cpu };
    (ind_update_hl(c1, sel), 8)
}

/// Effect of loading A through BC, DE, HL+ or HL-: a bus read, then the
/// HL post-step; no flag effects.
pub open spec fn ld_a_ind_spec(cpu: CpuV, op: u8) -> (CpuV, u8) {
    let sel = (op / 16) % 4;
    let c1 = CpuV { a: bus_read_spec(cpu.mem, ind_addr(cpu, sel)), ..cpu };
    (ind_update_hl(c1, sel), 8)
}

/// Effect of a 16-bit INC: the pair wraps; no flag effects.
pub open spec fn inc16_spec(cpu: CpuV, op: u8) -> (CpuV, u8) {
    let sel = (op / 16) % 4;
    (rp_set(cpu, sel, rp_get(cpu, sel).wrapping_add(1)), 8)
}

/// Effect of a 16-bit DEC: the pair wraps; no flag effects.
pub open spec fn dec16_spec(cpu: CpuV, op: u8) -> (CpuV, u8) {
    let sel = (op / 16) % 4;
    (rp_set(cpu, sel, rp_get(cpu, sel).wrapping_sub(1)), 8)
}

/// Effect of ADD HL, rr: N cleared, H from bit 11, C from bit 15; the Zero
/// flag is left unchanged.
pub open spec fn add_hl_spec(cpu: CpuV, op: u8) -> (CpuV, u8) {
    let hl = word_of(cpu.l, cpu.h);
    let rr = rp_get(cpu, (op / 16) % 4);
    let r = hl.wrapping_add(rr);
    let fl = flags_pack(
        flag_z(cpu.flags),
        false,
        hl % 0x1000 + rr % 0x1000 > 0x0FFF,
        hl + rr > 0xFFFF,
    );
    (CpuV { h: hi_byte(r), l: lo_byte(r), flags: fl, ..cpu }, 8)
}

/// Effect of the accumulator rotates RLCA, RRCA, RLA, RRA: Z, N and H are
/// cleared, C takes the bit shifted out.
pub open spec fn rotate_a_spec(cpu: CpuV, op: u8) -> (CpuV, u8) {
    let a = cpu.a;
    let cin: u8 = if flag_c(cpu.flags) { 1u8 } else { 0u8 };
    let sel = (op / 8) % 4;
    let r: u8 = if sel == 0 {
        ((a * 2) % 256 + a / 128) as u8
    } else if sel == 1 {
        (a / 2 + (a % 2) * 128) as u8
    } else if sel == 2 {
        ((a * 2) % 256 + cin) as u8
    } else {
        (a / 2 + cin * 128) as u8
    };
    let cout = if sel == 0 || sel == 2 { a / 128 == 1 } else { a % 2 == 1 };
    (CpuV { a: r, flags: flags_pack(false, false, false, cout), ..cpu }, 4)
}

/// Effect of LD (a16), SP: the little-endian target address is fetched and
/// SP is stored little-endian at it; no flag effects.
pub open spec fn ld_a16_sp_spec(cpu: CpuV) -> (CpuV, u8) {
    let lo = fetch_val(cpu);
    let c1 = fetch_post(cpu);
    let hi = fetch_val(c1);
    let c2 = fetch_post(c1);
    let addr = word_of(lo, hi);
    let m1 = bus_write_spec(c2.mem, addr, lo_byte(cpu.sp));
    let m2 = bus_write_spec(m1, addr.wrapping_add(1), hi_byte(cpu.sp));
    (CpuV { mem: m2, ..c2 }, 20)
}

/// Effect of the relative jumps: the signed offset is fetched and, for the
/// conditional forms, applied only when the condition holds; the offset is
/// relative to the PC after the operand. No flag effects.
pub open spec fn jr_spec(cpu: CpuV, op: u8) -> (CpuV, u8) {
    let e = fetch_val(cpu);
    let c1 = fetch_post(cpu);
    if op == 0x18 {
        (CpuV { pc: signed_add(c1.pc, e), ..c1 }, 12)
    } else if cond_holds(cpu.flags, (op / 8) % 4) {
        (CpuV { pc: signed_add(c1.pc, e), ..c1 }, 12)
    } else {
        (c1, 8)
    }
}

/// Result and flags of the decimal adjust of A: after an addition (N
/// clear), 0x60/0x06 are added when the carry/half-carry conditions hold
/// and C reports the high adjust; after a subtraction (N set), they are
/// subtracted exactly when C/H are set and C is unchanged. Z follows the
/// result, N is kept, H is cleared.
pub open spec fn daa_result(a: u8, flags: u8) -> (u8, u8) {
    let n = flag_n(flags);
    let h = flag_h(flags);
    let c = flag_c(flags);
    if !n {
        let c1 = c || a > 0x99;
        let adj = (if c1 { 0x60int } else { 0int }) + (if h || a % 16 > 9 { 6int } else { 0int });
        let r = ((a + adj) % 256) as u8;
        (r, flags_pack(r == 0, n, false, c1))
    } else {
        let adj = (if c { 0x60int } else { 0int }) + (if h { 6int } else { 0int });
        let r = ((a - adj + 256) % 256) as u8;
        (r, flags_pack(r == 0, n, false, c))
    }
}

/// Effect of the accumulator/flag housekeeping group: DAA; CPL (A
/// complemented, N and H set, Z and C kept); SCF (C set, N and H cleared,
/// Z kept); CCF (C complemented, N and H cleared, Z kept).
pub open spec fn acc_misc_spec(cpu: CpuV, op: u8) -> (CpuV, u8) {
    if op == 0x27 {
        let rf = daa_result(cpu.a, cpu.flags);
        (CpuV { a: rf.0, flags: rf.1, ..cpu }, 4)
    } else if op == 0x2F {
        (CpuV {
            a: (255 - cpu.a) as u8,
            flags: flags_pack(flag_z(cpu.flags), true, true, flag_c(cpu.flags)),
            ..cpu
        }, 4)
    } else if op == 0x37 {
        (CpuV { flags: flags_pack(flag_z(cpu.flags), false, false, true), ..cpu }, 4)
    } else {
        (CpuV { flags: flags_pack(flag_z(cpu.flags), false, false, !flag_c(cpu.flags)), ..cpu }, 4)
    }
}

/// Effect of the returns: RET and RETI pop the little-endian return
/// address into PC; the conditional forms pop only when the condition
/// holds. No flag effects. (RETI's interrupt re-enable is out-of-scope
/// peripheral machinery.)
pub open spec fn ret_spec(cpu: CpuV, op: u8) -> (CpuV, u8) {
    if op == 0xC9 || op == 0xD9 {
        let lo = pop_val(cpu);
        let c1 = pop_post(cpu);
        let hi = pop_val(c1);
        let c2 = pop_post(c1);
        (CpuV { pc: word_of(lo, hi), ..c2 }, 16)
    } else if cond_holds(cpu.flags, (op / 8) % 4) {
        let lo = pop_val(cpu);
        let c1 = pop_post(cpu);
        let hi = pop_val(c1);
        let c2 = pop_post(c1);
        (CpuV { pc: word_of(lo, hi), ..c2 }, 20)
    } else {
        (cpu, 8)
    }
}

/// Effect of the conditional absolute jumps: the little-endian target is
/// always fetched, PC takes it only when the condition holds. No flag
/// effects.
pub open spec fn jp_cc_spec(cpu: CpuV, op: u8) -> (CpuV, u8) {
    let lo = fetch_val(cpu);
    let c1 = fetch_post(cpu);
    let hi = fetch_val(c1);
    let c2 = fetch_post(c1);
    if cond_holds(cpu.flags, (op / 8) % 4) {
        (CpuV { pc: word_of(lo, hi), ..c2 }, 16)
    } else {
        (c2, 12)
    }
}

/// Effect of the calls: the little-endian target is always fetched; when
/// taken (always for the unconditional form), the return address — the PC
/// after the operands — is pushed high byte first and PC takes the target.
/// No flag effects.
pub open spec fn call_spec(cpu: CpuV, op: u8) -> (CpuV, u8) {
    let lo = fetch_val(cpu);
    let c1 = fetch_post(cpu);
    let hi = fetch_val(c1);
    let c2 = fetch_post(c1);
    if op == 0xCD || cond_holds(cpu.flags, (op / 8) % 4) {
        let c3 = push_spec(c2, hi_byte(c2.pc));
        let c4 = push_spec(c3, lo_byte(c2.pc));
        (CpuV { pc: word_of(lo, hi), ..c4 }, 24)
    } else {
        (c2, 12)
    }
}

/// Effect of a restart: the PC is pushed high byte first and PC takes the
/// opcode's fixed vector (0x00, 0x08, ..., 0x38). No flag effects.
pub open spec fn rst_spec(cpu: CpuV, op: u8) -> (CpuV, u8) {
    let c1 = push_spec(cpu, hi_byte(cpu.pc));
    let c2 = push_spec(c1, lo_byte(cpu.pc));
    (CpuV { pc: (op - 0xC7) as u16, ..c2 }, 16)
}

/// Effect of the high-page and absolute A loads: LDH (a8),A / LDH A,(a8)
/// address 0xFF00 + a8; LD (C),A / LD A,(C) address 0xFF00 + C;
/// LD (a16),A / LD A,(a16) fetch a little-endian address. No flag effects.
pub open spec fn ldh_spec(cpu: CpuV, op: u8) -> (CpuV, u8) {
    if op == 0xE0 {
        let a8 = fetch_val(cpu);
        let c1 = fetch_post(cpu);
        (CpuV { mem: bus_write_spec(c1.mem, (0xFF00 + a8) as u16, cpu.a), ..c1 }, 12)
    } else if op == 0xF0 {
        let a8 = fetch_val(cpu);
        let c1 = fetch_post(cpu);
        (CpuV { a: bus_read_spec(c1.mem, (0xFF00 + a8) as u16), ..c1 }, 12)
    } else if op == 0xE2 {
        (CpuV { mem: bus_write_spec(cpu.mem, (0xFF00 + cpu.c) as u16, cpu.a), ..cpu }, 8)
    } else if op == 0xF2 {
        (CpuV { a: bus_read_spec(cpu.mem, (0xFF00 + cpu.c) as u16), ..cpu }, 8)
    } else if op == 0xEA {
        let lo = fetch_val(cpu);
        let c1 = fetch_post(cpu);
        let hi = fetch_val(c1);
        let c2 = fetch_post(c1);
        (CpuV { mem: bus_write_spec(c2.mem, word_of(lo, hi), cpu.a), ..c2 }, 16)
    } else {
        let lo = fetch_val(cpu);
        let c1 = fetch_post(cpu);
        let hi = fetch_val(c1);
        let c2 = fetch_post(c1);
        (CpuV { a: bus_read_spec(c2.mem, word_of(lo, hi)), ..c2 }, 16)
    }
}

/// Effect of the SP/HL housekeeping group: ADD SP,e8 and LD HL,SP+e8 (Z
/// and N cleared, H and C from the low-byte addition), LD SP,HL, and
/// JP HL.
pub open spec fn sp_hl_spec(cpu: CpuV, op: u8) -> (CpuV, u8) {
    if op == 0xE8 {
        let e = fetch_val(cpu);
        let c1 = fetch_post(cpu);
        let fl = flags_pack(false, false, cpu.sp % 16 + e % 16 > 15, cpu.sp % 256 + e > 255);
        (CpuV { sp: signed_add(cpu.sp, e), flags: fl, ..c1 }, 16)
    } else if op == 0xF8 {
        let e = fetch_val(cpu);
        let c1 = fetch_post(cpu);
        let r = signed_add(cpu.sp, e);
        let fl = flags_pack(false, false, cpu.sp % 16 + e % 16 > 15, cpu.sp % 256 + e > 255);
        (CpuV { h: hi_byte(r), l: lo_byte(r), flags: fl, ..c1 }, 12)
    } else if op == 0xF9 {
        (CpuV { sp: word_of(cpu.l, cpu.h), ..cpu }, 8)
    } else {
        (CpuV { pc: word_of(cpu.l, cpu.h), ..cpu }, 4)
    }
}

/// State and cycle cost of executing one opcode, operand fetches included.
///
/// The whole unprefixed table is covered. Four opcodes — HALT, STOP, DI
/// and EI — drive the interrupt and power machinery, which this core
/// leaves to its out-of-scope peripheral collaborators: within this state
/// model they change nothing and cost one machine cycle. The prefix byte
/// 0xCB (the extended table) and the eleven opcodes the platform leaves
/// undefined (0xD3, 0xDB, 0xDD, 0xE3, 0xE4, 0xEB, 0xEC, 0xED, 0xF4, 0xFC,
/// 0xFD) are by documented policy no-ops costing one machine cycle: the
/// engine continues rather than halting.
pub open spec fn execute_spec(cpu: CpuV, op: u8) -> (CpuV, u8) {
    if op < 0x40 {
        if op == 0x00 || op == 0x10 {
            (cpu, 4)
        } else if op == 0x08 {
            ld_a16_sp_spec(cpu)
        } else if op % 8 == 0 {
            jr_spec(cpu, op)
        } else if op % 16 == 1 {
            ld_rr_d16_spec(cpu, op)
        } else if op % 16 == 9 {
            add_hl_spec(cpu, op)
        } else if op % 16 == 2 {
            ld_ind_a_spec(cpu, op)
        } else if op % 16 == 10 {
            ld_a_ind_spec(cpu, op)
        } else if op % 16 == 3 {
            inc16_spec(cpu, op)
        } else if op % 16 == 11 {
            dec16_spec(cpu, op)
        } else if op % 8 == 4 {
            inc_spec(cpu, op)
        } else if op % 8 == 5 {
            dec_spec(cpu, op)
        } else if op % 8 == 6 {
            ld_d8_spec(cpu, op)
        } else if op < 0x20 {
            rotate_a_spec(cpu, op)
        } else {
            acc_misc_spec(cpu, op)
        }
    } else if op < 0x80 {
        if op == 0x76 {
            (cpu, 4)
        } else {
            ld_rr_spec(cpu, op)
        }
    } else if op < 0xC0 {
        alu_r_spec(cpu, op)
    } else {
        if op == 0xF3 || op == 0xFB {
            (cpu, 4)
        } else if op % 8 == 6 {
            alu_d8_spec(cpu, op)
        } else if op % 8 == 7 {
            rst_spec(cpu, op)
        } else if op % 16 == 5 {
            push_op_spec(cpu, op)
        } else if op % 16 == 1 {
            pop_op_spec(cpu, op)
        } else if op == 0xC9 || op == 0xD9 || (op % 8 == 0 && op < 0xE0) {
            ret_spec(cpu, op)
        } else if op == 0xC3 {
            jp_spec(cpu)
        } else if op % 8 == 2 && op < 0xE0 {
            jp_cc_spec(cpu, op)
        } else if op == 0xCD || (op % 8 == 4 && op < 0xE0) {
            call_spec(cpu, op)
        } else if op == 0xE0 || op == 0xF0 || op == 0xE2 || op == 0xF2 || op == 0xEA
            || op == 0xFA {
            ldh_spec(cpu, op)
        } else if op == 0xE8 || op == 0xF8 || op == 0xF9 || op == 0xE9 {
            sp_hl_spec(cpu, op)
        } else {
            (cpu, 4)
        }
    }
}

/// One whole step: fetch the opcode at PC, then execute it.
pub open spec fn step_spec(cpu: CpuV) -> CpuV {
    execute_spec(fetch_post(cpu), fetch_val(cpu)).0
}

impl Cpu {
    /// Reads the byte at PC from the bus, then advances PC by one: the only
    /// sanctioned way PC moves during normal execution.
    pub fn fetch(&mut self) -> (value: u8)
        requires
            old(self).wf(),
        ensures
            final(self).wf(),
            value == fetch_val(old(self)@),
            final(self)@ == fetch_post(old(self)@),
    {
        let value = self.memmap.read(self.pc);
        self.pc = self.pc.wrapping_add(1);
        value
    }

    /// Decrements SP by one (wrapping), then writes the byte to the bus at
    /// the new SP.
    pub fn push(&mut self, value: u8)
        requires
            old(self).wf(),
        ensures
            final(self).wf(),
            final(self)@ == push_spec(old(self)@, value),
    {
        self.sp = self.sp.wrapping_sub(1);
        self.memmap.write(self.sp, value);
    }

    /// Reads the byte at SP from the bus, then increments SP by one
    /// (wrapping).
    pub fn pop(&mut self) -> (value: u8)
        requires
            old(self).wf(),
        ensures
            final(self).wf(),
            value == pop_val(old(self)@),
            final(self)@ == pop_post(old(self)@),
    {
        let value = self.memmap.read(self.sp);
        self.sp = self.sp.wrapping_add(1);
        value
    }

    /// Reads one 3-bit operand field: a register, or the bus byte at HL.
    fn read_operand(&self, idx: u8) -> (value: u8)
        requires
            self.wf(),
            idx < 8,
        ensures
            value == operand_get(self@, idx),
    {
        if idx == 6 {
            let addr = self.get_register_u16(Registers::HL);
            self.memmap.read(addr)
        } else {
            let reg = self.get_register_from_byte(idx);
            self.get_register(reg)
        }
    }

    /// Writes one 3-bit operand field: a register, or a bus write at HL.
    fn write_operand(&mut self, idx: u8, value: u8)
        requires
            old(self).wf(),
            idx < 8,
        ensures
            final(self).wf(),
            final(self)@ == operand_set(old(self)@, idx, value),
    {
        if idx == 6 {
            let addr = self.get_register_u16(Registers::HL);
            self.memmap.write(addr, value);
        } else {
            let reg = self.get_register_from_byte(idx);
            self.set_register(reg, value);
        }
    }

    /// Applies one arithmetic/logic family member to A and the operand
    /// byte, updating A (except for CP) and all four flags.
    fn alu_exec(&mut self, fam: u8, b: u8)
        requires
            old(self).wf(),
            fam < 8,
        ensures
            final(self).wf(),
            final(self)@ == (CpuV {
                a: alu_apply(fam, old(self)@.a, b, flag_c(old(self)@.flags)).0,
                flags: alu_apply(fam, old(self)@.a, b, flag_c(old(self)@.flags)).1,
                ..old(self)@
            }),
    {
        let a = self.a;
        let cin: u16 = if self.flags / 16 % 2 == 1 { 1 } else { 0 };
        if fam == 0 || fam == 1 {
            let ci: u16 = if fam == 0 { 0 } else { cin };
            let sum: u16 = a as u16 + b as u16 + ci;
            let r = (sum % 256) as u8;
            let half = (a % 16) as u16 + (b % 16) as u16 + ci > 15;
            self.a = r;
            self.flags = pack_flags(r == 0, false, half, sum > 255);
        } else if fam == 2 || fam == 3 || fam == 7 {
            let ci: u16 = if fam == 3 { cin } else { 0 };
            let diff: u16 = 256 + a as u16 - b as u16 - ci;
            let r = (diff % 256) as u8;
            let half = ((a % 16) as u16) < (b % 16) as u16 + ci;
            let carry = (a as u16) < b as u16 + ci;
            if fam != 7 {
                self.a = r;
            }
            self.flags = pack_flags(r == 0, true, half, carry);
        } else if fam == 4 {
            let r = a & b;
            self.a = r;
            self.flags = pack_flags(r == 0, false, true, false);
        } else if fam == 5 {
            let r = a ^ b;
            self.a = r;
            self.flags = pack_flags(r == 0, false, false, false);
        } else {
            let r = a | b;
            self.a = r;
            self.flags = pack_flags(r == 0, false, false, false);
        }
    }

    /// Reads one 2-bit stack-pair field: BC, DE, HL or AF.
    fn pair_value(&self, sel: u8) -> (value: u16)
        requires
            sel < 4,
        ensures
            value == pair_get(self@, sel),
    {
        if sel == 0 {
            self.get_register_u16(Registers::BC)
        } else if sel == 1 {
            self.get_register_u16(Registers::DE)
        } else if sel == 2 {
            self.get_register_u16(Registers::HL)
        } else {
            self.get_register_u16(Registers::AF)
        }
    }

    /// Writes one 2-bit stack-pair field from two bytes; writing AF keeps
    /// the low nibble of the flag byte zero.
    fn set_pair(&mut self, sel: u8, lo: u8, hi: u8)
        requires
            old(self).wf(),
            sel < 4,
        ensures
            final(self).wf(),
            final(self)@ == pair_set(old(self)@, sel, lo, hi),
    {
        if sel == 0 {
            self.b = hi;
            self.c = lo;
        } else if sel == 1 {
            self.d = hi;
            self.e = lo;
        } else if sel == 2 {
            self.h = hi;
            self.l = lo;
        } else {
            self.a = hi;
            self.flags = lo / 16 * 16;
        }
    }

    /// One 8-bit immediate load: fetches the immediate and writes it to
    /// the operand field named by the opcode.
    fn exec_ld_d8(&mut self, opcode: u8) -> (cycles: u8)
        requires
            old(self).wf(),
            opcode < 0x40,
            opcode % 8 == 6,
        ensures
            final(self).wf(),
            final(self)@ == ld_d8_spec(old(self)@, opcode).0,
            cycles == ld_d8_spec(old(self)@, opcode).1,
    {
        let v = self.fetch();
        let dst = (opcode / 8) % 8;
        self.write_operand(dst, v);
        if dst == 6 { 12 } else { 8 }
    }

    /// One INC of an 8-bit operand field; the carry flag is kept.
    #[verifier::rlimit(100)]
    fn exec_inc(&mut self, opcode: u8) -> (cycles: u8)
        requires
            old(self).wf(),
            opcode < 0x40,
            opcode % 8 == 4,
        ensures
            final(self).wf(),
            final(self)@ == inc_spec(old(self)@, opcode).0,
            cycles == inc_spec(old(self)@, opcode).1,
    {
        let idx = (opcode / 8) % 8;
        let v = self.read_operand(idx);
        let carry = self.flags / 16 % 2 == 1;
        let r = v.wrapping_add(1);
        let fl = pack_flags(r == 0, false, v % 16 == 15, carry);
        self.write_operand(idx, r);
        self.flags = fl;
        if idx == 6 { 12 } else { 4 }
    }

    /// One DEC of an 8-bit operand field; the carry flag is kept.
    #[verifier::rlimit(100)]
    fn exec_dec(&mut self, opcode: u8) -> (cycles: u8)
        requires
            old(self).wf(),
            opcode < 0x40,
            opcode % 8 == 5,
        ensures
            final(self).wf(),
            final(self)@ == dec_spec(old(self)@, opcode).0,
            cycles == dec_spec(old(self)@, opcode).1,
    {
        let idx = (opcode / 8) % 8;
        let v = self.read_operand(idx);
        let carry = self.flags / 16 % 2 == 1;
        let r = v.wrapping_sub(1);
        let fl = pack_flags(r == 0, true, v % 16 == 0, carry);
        self.write_operand(idx, r);
        self.flags = fl;
        if idx == 6 { 12 } else { 4 }
    }

    /// One register-to-register load (memory at HL as source or
    /// destination included).
    fn exec_ld_rr(&mut self, opcode: u8) -> (cycles: u8)
        requires
            old(self).wf(),
            0x40 <= opcode && opcode < 0x80,
            opcode != 0x76,
        ensures
            final(self).wf(),
            final(self)@ == ld_rr_spec(old(self)@, opcode).0,
            cycles == ld_rr_spec(old(self)@, opcode).1,
    {
        let src = opcode % 8;
        let dst = (opcode / 8) % 8;
        let v = self.read_operand(src);
        self.write_operand(dst, v);
        if src == 6 || dst == 6 { 8 } else { 4 }
    }

    /// One arithmetic/logic instruction over a register or memory operand.
    fn exec_alu_r(&mut self, opcode: u8) -> (cycles: u8)
        requires
            old(self).wf(),
            0x80 <= opcode && opcode < 0xC0,
        ensures
            final(self).wf(),
            final(self)@ == alu_r_spec(old(self)@, opcode).0,
            cycles == alu_r_spec(old(self)@, opcode).1,
    {
        let fam = (opcode / 8) % 8;
        let src = opcode % 8;
        let b = self.read_operand(src);
        self.alu_exec(fam, b);
        if src == 6 { 8 } else { 4 }
    }

    /// One arithmetic/logic instruction over an immediate operand.
    fn exec_alu_d8(&mut self, opcode: u8) -> (cycles: u8)
        requires
            old(self).wf(),
            0xC0 <= opcode,
            opcode % 8 == 6,
        ensures
            final(self).wf(),
            final(self)@ == alu_d8_spec(old(self)@, opcode).0,
            cycles == alu_d8_spec(old(self)@, opcode).1,
    {
        let b = self.fetch();
        let fam = (opcode / 8) % 8;
        self.alu_exec(fam, b);
        8
    }

    /// The absolute jump: fetches the little-endian target and sets PC.
    fn exec_jp(&mut self, opcode: u8) -> (cycles: u8)
        requires
            old(self).wf(),
            opcode == 0xC3,
        ensures
            final(self).wf(),
            final(self)@ == jp_spec(old(self)@).0,
            cycles == jp_spec(old(self)@).1,
    {
        let lo = self.fetch();
        let hi = self.fetch();
        self.pc = lo as u16 + (hi as u16) * 256;
        16
    }

    /// One 16-bit stack push: high byte first, per platform convention.
    fn exec_push(&mut self, opcode: u8) -> (cycles: u8)
        requires
            old(self).wf(),
            0xC0 <= opcode,
            opcode % 16 == 5,
        ensures
            final(self).wf(),
            final(self)@ == push_op_spec(old(self)@, opcode).0,
            cycles == push_op_spec(old(self)@, opcode).1,
    {
        let sel = (opcode / 16) % 4;
        let v = self.pair_value(sel);
        self.push((v / 256) as u8);
        self.push((v % 256) as u8);
        16
    }

    /// One 16-bit stack pop: low byte first, so the high byte pushed first
    /// is popped last.
    fn exec_pop(&mut self, opcode: u8) -> (cycles: u8)
        requires
            old(self).wf(),
            0xC0 <= opcode,
            opcode % 16 == 1,
        ensures
            final(self).wf(),
            final(self)@ == pop_op_spec(old(self)@, opcode).0,
            cycles == pop_op_spec(old(self)@, opcode).1,
    {
        let sel = (opcode / 16) % 4;
        let lo = self.pop();
        let hi = self.pop();
        self.set_pair(sel, lo, hi);
        12
    }

    /// Reads one 16-bit register-pair field of the 16-bit encodings:
    /// BC, DE, HL or SP.
    fn rp_value(&self, sel: u8) -> (value: u16)
        requires
            sel < 4,
        ensures
            value == rp_get(self@, sel),
    {
        if sel == 0 {
            self.get_register_u16(Registers::BC)
        } else if sel == 1 {
            self.get_register_u16(Registers::DE)
        } else if sel == 2 {
            self.get_register_u16(Registers::HL)
        } else {
            self.sp
        }
    }

    /// Writes one 16-bit register-pair field (BC, DE, HL or SP).
    fn set_rp(&mut self, sel: u8, v: u16)
        requires
            old(self).wf(),
            sel < 4,
        ensures
            final(self).wf(),
            final(self)@ == rp_set(old(self)@, sel, v),
    {
        if sel == 0 {
            self.b = (v / 256) as u8;
            self.c = (v % 256) as u8;
        } else if sel == 1 {
            self.d = (v / 256) as u8;
            self.e = (v % 256) as u8;
        } else if sel == 2 {
            self.h = (v / 256) as u8;
            self.l = (v % 256) as u8;
        } else {
            self.sp = v;
        }
    }

    /// Evaluates one 2-bit condition field against the flags.
    fn cond(&self, cc: u8) -> (b: bool)
        requires
            cc < 4,
        ensures
            b == cond_holds(self@.flags, cc),
    {
        if cc == 0 {
            !(self.flags / 128 % 2 == 1)
        } else if cc == 1 {
            self.flags / 128 % 2 == 1
        } else if cc == 2 {
            !(self.flags / 16 % 2 == 1)
        } else {
            self.flags / 16 % 2 == 1
        }
    }

    /// One 16-bit immediate load into BC, DE, HL or SP.
    fn exec_ld_rr_d16(&mut self, opcode: u8) -> (cycles: u8)
        requires
            old(self).wf(),
            opcode < 0x40,
            opcode % 16 == 1,
        ensures
            final(self).wf(),
            final(self)@ == ld_rr_d16_spec(old(self)@, opcode).0,
            cycles == ld_rr_d16_spec(old(self)@, opcode).1,
    {
        let lo = self.fetch();
        let hi = self.fetch();
        self.set_rp((opcode / 16) % 4, lo as u16 + (hi as u16) * 256);
        12
    }

    /// The address of one indirect-A encoding: BC, DE, or HL.
    fn indirect_addr(&self, sel: u8) -> (addr: u16)
        requires
            sel < 4,
        ensures
            addr == ind_addr(self@, sel),
    {
        if sel == 0 {
            self.get_register_u16(Registers::BC)
        } else if sel == 1 {
            self.get_register_u16(Registers::DE)
        } else {
            self.get_register_u16(Registers::HL)
        }
    }

    /// The HL post-step of the HL+ and HL- indirect forms.
    fn indirect_hl_step(&mut self, sel: u8)
        requires
            old(self).wf(),
            sel < 4,
        ensures
            final(self).wf(),
            final(self)@ == ind_update_hl(old(self)@, sel),
    {
        if sel == 2 {
            let nhl = self.get_register_u16(Registers::HL).wrapping_add(1);
            self.h = (nhl / 256) as u8;
            self.l = (nhl % 256) as u8;
        } else if sel == 3 {
            let nhl = self.get_register_u16(Registers::HL).wrapping_sub(1);
            self.h = (nhl / 256) as u8;
            self.l = (nhl % 256) as u8;
        }
    }

    /// One store of A through BC, DE, HL+ or HL-.
    fn exec_ld_ind_a(&mut self, opcode: u8) -> (cycles: u8)
        requires
            old(self).wf(),
            opcode < 0x40,
            opcode % 16 == 2,
        ensures
            final(self).wf(),
            final(self)@ == ld_ind_a_spec(old(self)@, opcode).0,
            cycles == ld_ind_a_spec(old(self)@, opcode).1,
    {
        let sel = (opcode / 16) % 4;
        let addr = self.indirect_addr(sel);
        let value = self.a;
        self.memmap.write(addr, value);
        self.indirect_hl_step(sel);
        8
    }

    /// One load of A through BC, DE, HL+ or HL-.
    fn exec_ld_a_ind(&mut self, opcode: u8) -> (cycles: u8)
        requires
            old(self).wf(),
            opcode < 0x40,
            opcode % 16 == 10,
        ensures
            final(self).wf(),
            final(self)@ == ld_a_ind_spec(old(self)@, opcode).0,
            cycles == ld_a_ind_spec(old(self)@, opcode).1,
    {
        let sel = (opcode / 16) % 4;
        let addr = self.indirect_addr(sel);
        self.a = self.memmap.read(addr);
        self.indirect_hl_step(sel);
        8
    }

    /// One 16-bit INC or DEC of BC, DE, HL or SP; no flag effects.
    fn exec_inc_dec16(&mut self, opcode: u8) -> (cycles: u8)
        requires
            old(self).wf(),
            opcode < 0x40,
            opcode % 16 == 3 || opcode % 16 == 11,
        ensures
            final(self).wf(),
            opcode % 16 == 3 ==> final(self)@ == inc16_spec(old(self)@, opcode).0
                && cycles == inc16_spec(old(self)@, opcode).1,
            opcode % 16 == 11 ==> final(self)@ == dec16_spec(old(self)@, opcode).0
                && cycles == dec16_spec(old(self)@, opcode).1,
    {
        let sel = (opcode / 16) % 4;
        let v = self.rp_value(sel);
        if opcode % 16 == 3 {
            self.set_rp(sel, v.wrapping_add(1));
        } else {
            self.set_rp(sel, v.wrapping_sub(1));
        }
        8
    }

    /// One ADD HL, rr; the Zero flag is kept.
    fn exec_add_hl(&mut self, opcode: u8) -> (cycles: u8)
        requires
            old(self).wf(),
            opcode < 0x40,
            opcode % 16 == 9,
        ensures
            final(self).wf(),
            final(self)@ == add_hl_spec(old(self)@, opcode).0,
            cycles == add_hl_spec(old(self)@, opcode).1,
    {
        let hl = self.get_register_u16(Registers::HL);
        let rr = self.rp_value((opcode / 16) % 4);
        let r = hl.wrapping_add(rr);
        let z = self.flags / 128 % 2 == 1;
        let half = hl % 0x1000 + rr % 0x1000 > 0x0FFF;
        let carry = (hl as u32) + (rr as u32) > 0xFFFF;
        self.h = (r / 256) as u8;
        self.l = (r % 256) as u8;
        self.flags = pack_flags(z, false, half, carry);
        8
    }

    /// One accumulator rotate (RLCA, RRCA, RLA, RRA).
    fn exec_rotate_a(&mut self, opcode: u8) -> (cycles: u8)
        requires
            old(self).wf(),
            opcode < 0x20,
            opcode % 8 == 7,
        ensures
            final(self).wf(),
            final(self)@ == rotate_a_spec(old(self)@, opcode).0,
            cycles == rotate_a_spec(old(self)@, opcode).1,
    {
        let a = self.a;
        let cin: u8 = if self.flags / 16 % 2 == 1 { 1 } else { 0 };
        let sel = (opcode / 8) % 4;
        let r: u8 = if sel == 0 {
            ((a as u16 * 2) % 256) as u8 + a / 128
        } else if sel == 1 {
            a / 2 + (a % 2) * 128
        } else if sel == 2 {
            ((a as u16 * 2) % 256) as u8 + cin
        } else {
            a / 2 + cin * 128
        };
        let cout = if sel == 0 || sel == 2 { a / 128 == 1 } else { a % 2 == 1 };
        self.a = r;
        self.flags = pack_flags(false, false, false, cout);
        4
    }

    /// LD (a16), SP: stores SP little-endian at a fetched address.
    fn exec_ld_a16_sp(&mut self) -> (cycles: u8)
        requires
            old(self).wf(),
        ensures
            final(self).wf(),
            final(self)@ == ld_a16_sp_spec(old(self)@).0,
            cycles == ld_a16_sp_spec(old(self)@).1,
    {
        let sp = self.sp;
        let lo = self.fetch();
        let hi = self.fetch();
        let addr = lo as u16 + (hi as u16) * 256;
        self.memmap.write(addr, (sp % 256) as u8);
        self.memmap.write(addr.wrapping_add(1), (sp / 256) as u8);
        20
    }

    /// One relative jump, unconditional (0x18) or conditional.
    fn exec_jr(&mut self, opcode: u8) -> (cycles: u8)
        requires
            old(self).wf(),
            opcode < 0x40,
            opcode % 8 == 0,
            opcode != 0x00,
            opcode != 0x08,
            opcode != 0x10,
        ensures
            final(self).wf(),
            final(self)@ == jr_spec(old(self)@, opcode).0,
            cycles == jr_spec(old(self)@, opcode).1,
    {
        let taken = if opcode == 0x18 { true } else { self.cond((opcode / 8) % 4) };
        let e = self.fetch();
        if taken {
            self.pc = signed_add16(self.pc, e);
            12
        } else {
            8
        }
    }

    /// One instruction of the accumulator/flag housekeeping group
    /// (DAA, CPL, SCF, CCF).
    fn exec_acc_misc(&mut self, opcode: u8) -> (cycles: u8)
        requires
            old(self).wf(),
            opcode == 0x27 || opcode == 0x2F || opcode == 0x37 || opcode == 0x3F,
        ensures
            final(self).wf(),
            final(self)@ == acc_misc_spec(old(self)@, opcode).0,
            cycles == acc_misc_spec(old(self)@, opcode).1,
    {
        let z = self.flags / 128 % 2 == 1;
        let n = self.flags / 64 % 2 == 1;
        let h = self.flags / 32 % 2 == 1;
        let c = self.flags / 16 % 2 == 1;
        if opcode == 0x27 {
            let a = self.a;
            if !n {
                let c1 = c || a > 0x99;
                let mut adj: u16 = 0;
                if c1 {
                    adj = adj + 0x60;
                }
                if h || a % 16 > 9 {
                    adj = adj + 6;
                }
                let r = ((a as u16 + adj) % 256) as u8;
                self.a = r;
                self.flags = pack_flags(r == 0, n, false, c1);
            } else {
                let mut adj: u16 = 0;
                if c {
                    adj = adj + 0x60;
                }
                if h {
                    adj = adj + 6;
                }
                let r = ((a as u16 + 256 - adj) % 256) as u8;
                self.a = r;
                self.flags = pack_flags(r == 0, n, false, c);
            }
        } else if opcode == 0x2F {
            self.a = 255 - self.a;
            self.flags = pack_flags(z, true, true, c);
        } else if opcode == 0x37 {
            self.flags = pack_flags(z, false, false, true);
        } else {
            self.flags = pack_flags(z, false, false, !c);
        }
        4
    }

    /// One return (RET, RETI, or a conditional form).
    fn exec_ret(&mut self, opcode: u8) -> (cycles: u8)
        requires
            old(self).wf(),
            opcode == 0xC9 || opcode == 0xD9
                || (0xC0 <= opcode && opcode < 0xE0 && opcode % 8 == 0),
        ensures
            final(self).wf(),
            final(self)@ == ret_spec(old(self)@, opcode).0,
            cycles == ret_spec(old(self)@, opcode).1,
    {
        if opcode == 0xC9 || opcode == 0xD9 {
            let lo = self.pop();
            let hi = self.pop();
            self.pc = lo as u16 + (hi as u16) * 256;
            16
        } else if self.cond((opcode / 8) % 4) {
            let lo = self.pop();
            let hi = self.pop();
            self.pc = lo as u16 + (hi as u16) * 256;
            20
        } else {
            8
        }
    }

    /// One conditional absolute jump.
    fn exec_jp_cc(&mut self, opcode: u8) -> (cycles: u8)
        requires
            old(self).wf(),
            0xC0 <= opcode && opcode < 0xE0,
            opcode % 8 == 2,
        ensures
            final(self).wf(),
            final(self)@ == jp_cc_spec(old(self)@, opcode).0,
            cycles == jp_cc_spec(old(self)@, opcode).1,
    {
        let taken = self.cond((opcode / 8) % 4);
        let lo = self.fetch();
        let hi = self.fetch();
        if taken {
            self.pc = lo as u16 + (hi as u16) * 256;
            16
        } else {
            12
        }
    }

    /// One call (CALL a16 or a conditional form): pushes the return
    /// address high byte first when taken.
    fn exec_call(&mut self, opcode: u8) -> (cycles: u8)
        requires
            old(self).wf(),
            opcode == 0xCD || (0xC0 <= opcode && opcode < 0xE0 && opcode % 8 == 4),
        ensures
            final(self).wf(),
            final(self)@ == call_spec(old(self)@, opcode).0,
            cycles == call_spec(old(self)@, opcode).1,
    {
        let taken = if opcode == 0xCD { true } else { self.cond((opcode / 8) % 4) };
        let lo = self.fetch();
        let hi = self.fetch();
        if taken {
            let ret = self.pc;
            self.push((ret / 256) as u8);
            self.push((ret % 256) as u8);
            self.pc = lo as u16 + (hi as u16) * 256;
            24
        } else {
            12
        }
    }

    /// One restart: pushes PC high byte first and jumps to the opcode's
    /// fixed vector.
    fn exec_rst(&mut self, opcode: u8) -> (cycles: u8)
        requires
            old(self).wf(),
            0xC0 <= opcode,
            opcode % 8 == 7,
        ensures
            final(self).wf(),
            final(self)@ == rst_spec(old(self)@, opcode).0,
            cycles == rst_spec(old(self)@, opcode).1,
    {
        let ret = self.pc;
        self.push((ret / 256) as u8);
        self.push((ret % 256) as u8);
        self.pc = (opcode - 0xC7) as u16;
        16
    }

    /// One high-page or absolute A load.
    fn exec_ldh(&mut self, opcode: u8) -> (cycles: u8)
        requires
            old(self).wf(),
            opcode == 0xE0 || opcode == 0xF0 || opcode == 0xE2 || opcode == 0xF2
                || opcode == 0xEA || opcode == 0xFA,
        ensures
            final(self).wf(),
            final(self)@ == ldh_spec(old(self)@, opcode).0,
            cycles == ldh_spec(old(self)@, opcode).1,
    {
        if opcode == 0xE0 {
            let value = self.a;
            let a8 = self.fetch();
            self.memmap.write(0xFF00 + a8 as u16, value);
            12
        } else if opcode == 0xF0 {
            let a8 = self.fetch();
            self.a = self.memmap.read(0xFF00 + a8 as u16);
            12
        } else if opcode == 0xE2 {
            let value = self.a;
            let c = self.c;
            self.memmap.write(0xFF00 + c as u16, value);
            8
        } else if opcode == 0xF2 {
            let c = self.c;
            self.a = self.memmap.read(0xFF00 + c as u16);
            8
        } else if opcode == 0xEA {
            let value = self.a;
            let lo = self.fetch();
            let hi = self.fetch();
            self.memmap.write(lo as u16 + (hi as u16) * 256, value);
            16
        } else {
            let lo = self.fetch();
            let hi = self.fetch();
            self.a = self.memmap.read(lo as u16 + (hi as u16) * 256);
            16
        }
    }

    /// One instruction of the SP/HL housekeeping group
    /// (ADD SP,e8; LD HL,SP+e8; LD SP,HL; JP HL).
    fn exec_sp_hl(&mut self, opcode: u8) -> (cycles: u8)
        requires
            old(self).wf(),
            opcode == 0xE8 || opcode == 0xF8 || opcode == 0xF9 || opcode == 0xE9,
        ensures
            final(self).wf(),
            final(self)@ == sp_hl_spec(old(self)@, opcode).0,
            cycles == sp_hl_spec(old(self)@, opcode).1,
    {
        if opcode == 0xE8 {
            let sp = self.sp;
            let e = self.fetch();
            let half = sp % 16 + (e % 16) as u16 > 15;
            let carry = sp % 256 + e as u16 > 255;
            self.sp = signed_add16(sp, e);
            self.flags = pack_flags(false, false, half, carry);
            16
        } else if opcode == 0xF8 {
            let sp = self.sp;
            let e = self.fetch();
            let half = sp % 16 + (e % 16) as u16 > 15;
            let carry = sp % 256 + e as u16 > 255;
            let r = signed_add16(sp, e);
            self.h = (r / 256) as u8;
            self.l = (r % 256) as u8;
            self.flags = pack_flags(false, false, half, carry);
            12
        } else if opcode == 0xF9 {
            self.sp = self.get_register_u16(Registers::HL);
            8
        } else {
            self.pc = self.get_register_u16(Registers::HL);
            4
        }
    }

    /// Executes one opcode: fetches any operand bytes it needs, applies its
    /// effect on registers, flags and memory, and returns its cycle cost.
    ///
    /// The whole unprefixed table is implemented; HALT, STOP, DI and EI
    /// touch only out-of-scope interrupt/power machinery, and the prefix
    /// byte with the eleven undefined opcodes follow the documented no-op
    /// policy; see `execute_spec`.
    #[verifier::rlimit(100)]
    pub fn execute(&mut self, opcode: u8) -> (cycles: u8)
        requires
            old(self).wf(),
        ensures
            final(self).wf(),
            final(self)@ == execute_spec(old(self)@, opcode).0,
            cycles == execute_spec(old(self)@, opcode).1,
    {
        if opcode < 0x40 {
            if opcode == 0x00 || opcode == 0x10 {
                4
            } else if opcode == 0x08 {
                self.exec_ld_a16_sp()
            } else if opcode % 8 == 0 {
                self.exec_jr(opcode)
            } else if opcode % 16 == 1 {
                self.exec_ld_rr_d16(opcode)
            } else if opcode % 16 == 9 {
                self.exec_add_hl(opcode)
            } else if opcode % 16 == 2 {
                self.exec_ld_ind_a(opcode)
            } else if opcode % 16 == 10 {
                self.exec_ld_a_ind(opcode)
            } else if opcode % 16 == 3 || opcode % 16 == 11 {
                self.exec_inc_dec16(opcode)
            } else if opcode % 8 == 4 {
                self.exec_inc(opcode)
            } else if opcode % 8 == 5 {
                self.exec_dec(opcode)
            } else if opcode % 8 == 6 {
                self.exec_ld_d8(opcode)
            } else if opcode < 0x20 {
                self.exec_rotate_a(opcode)
            } else {
                self.exec_acc_misc(opcode)
            }
        } else if opcode < 0x80 {
            if opcode == 0x76 {
                4
            } else {
                self.exec_ld_rr(opcode)
            }
        } else if opcode < 0xC0 {
            self.exec_alu_r(opcode)
        } else {
            if opcode == 0xF3 || opcode == 0xFB {
                4
            } else if opcode % 8 == 6 {
                self.exec_alu_d8(opcode)
            } else if opcode % 8 == 7 {
                self.exec_rst(opcode)
            } else if opcode % 16 == 5 {
                self.exec_push(opcode)
            } else if opcode % 16 == 1 {
                self.exec_pop(opcode)
            } else if opcode == 0xC9 || opcode == 0xD9
                || (opcode % 8 == 0 && opcode < 0xE0) {
                self.exec_ret(opcode)
            } else if opcode == 0xC3 {
                self.exec_jp(opcode)
            } else if opcode % 8 == 2 && opcode < 0xE0 {
                self.exec_jp_cc(opcode)
            } else if opcode == 0xCD || (opcode % 8 == 4 && opcode < 0xE0) {
                self.exec_call(opcode)
            } else if opcode == 0xE0 || opcode == 0xF0 || opcode == 0xE2
                || opcode == 0xF2 || opcode == 0xEA || opcode == 0xFA {
                self.exec_ldh(opcode)
            } else if opcode == 0xE8 || opcode == 0xF8 || opcode == 0xF9
                || opcode == 0xE9 {
                self.exec_sp_hl(opcode)
            } else {
                4
            }
        }
    }

    /// Advances the system by one instruction: fetches the opcode at PC and
    /// executes it.
    pub fn step(&mut self)
        requires
            old(self).wf(),
        ensures
            final(self).wf(),
            final(self)@ == step_spec(old(self)@),
    {
        let opcode = self.fetch();
        let _cycles = self.execute(opcode);
    }
}

/// A 16-bit composition is the shift-or of its bytes.
pub proof fn lemma_word_of_shift(lo: u8, hi: u8)
    ensures
        word_of(lo, hi) == (lo as u16) | ((hi as u16) << 8),
{
    let l = lo as u16;
    let h = hi as u16;
    let w = word_of(lo, hi);
    assert(w == (l + h * 256) as u16);
    assert(l < 256 ==> h < 256 ==> w == (l + h * 256) as u16 ==> w == (l | (h << 8)))
        by (bit_vector);
}

/// Pair/half consistency: writing the two halves of BC, DE or HL and
/// reading the pair back yields `hi * 256 + lo`, and reading each half back
/// yields the byte that was written. The same holds for AF through the
/// pair write, for a low byte whose low nibble is zero — AF's low nibble
/// always reads as zero.
pub proof fn lemma_pair_half_consistency(cpu: CpuV, hi: u8, lo: u8)
    ensures
        reg16_get(reg8_set(reg8_set(cpu, Registers::B, hi), Registers::C, lo), Registers::BC)
            == hi * 256 + lo,
        reg8_get(reg8_set(reg8_set(cpu, Registers::B, hi), Registers::C, lo), Registers::B) == hi,
        reg8_get(reg8_set(reg8_set(cpu, Registers::B, hi), Registers::C, lo), Registers::C) == lo,
        reg16_get(reg8_set(reg8_set(cpu, Registers::D, hi), Registers::E, lo), Registers::DE)
            == hi * 256 + lo,
        reg8_get(reg8_set(reg8_set(cpu, Registers::D, hi), Registers::E, lo), Registers::D) == hi,
        reg8_get(reg8_set(reg8_set(cpu, Registers::D, hi), Registers::E, lo), Registers::E) == lo,
        reg16_get(reg8_set(reg8_set(cpu, Registers::H, hi), Registers::L, lo), Registers::HL)
            == hi * 256 + lo,
        reg8_get(reg8_set(reg8_set(cpu, Registers::H, hi), Registers::L, lo), Registers::H) == hi,
        reg8_get(reg8_set(reg8_set(cpu, Registers::H, hi), Registers::L, lo), Registers::L) == lo,
        lo % 16 == 0 ==> reg16_get(pair_set(cpu, 3, lo, hi), Registers::AF) == hi * 256 + lo,
{
}

/// Flag isolation, load families: the 8-bit immediate, register-to-register
/// (memory at HL included), indirect-A, high-page and absolute A loads, the
/// 16-bit immediate loads, LD (a16),SP and LD SP,HL define no flag effects,
/// so the flag byte is bit-for-bit unchanged.
pub proof fn lemma_load_preserves_flags(cpu: CpuV, op: u8)
    requires
        (op < 0x40 && op % 8 == 6) || (0x40 <= op && op < 0x80)
            || (op < 0x40 && (op % 16 == 1 || op % 16 == 2 || op % 16 == 10))
            || op == 0x08 || op == 0xE0 || op == 0xF0 || op == 0xE2 || op == 0xF2
            || op == 0xEA || op == 0xFA || op == 0xF9,
    ensures
        execute_spec(cpu, op).0.flags == cpu.flags,
{
}

/// Flag isolation, 16-bit INC/DEC family: no flag effects at all, the
/// flag byte is bit-for-bit unchanged.
pub proof fn lemma_inc_dec16_preserves_flags(cpu: CpuV, op: u8)
    requires
        op < 0x40,
        op % 16 == 3 || op % 16 == 11,
    ensures
        execute_spec(cpu, op).0.flags == cpu.flags,
{
}

/// Flag isolation, control families: NOP, the relative and absolute jumps
/// (conditional forms included), JP HL, the calls, returns and restarts
/// define no flag effects, so the flag byte is bit-for-bit unchanged.
pub proof fn lemma_control_preserves_flags(cpu: CpuV, op: u8)
    requires
        op == 0x00 || op == 0xC3 || op == 0xE9 || op == 0xC9 || op == 0xD9 || op == 0xCD
            || (op < 0x40 && op % 8 == 0 && op != 0x08)
            || (0xC0 <= op && op < 0xE0 && (op % 8 == 0 || op % 8 == 2 || op % 8 == 4))
            || (0xC0 <= op && op % 8 == 7),
    ensures
        execute_spec(cpu, op).0.flags == cpu.flags,
{
}

/// Flag isolation, ADD HL family: the Zero flag is not in the family's
/// flag-effect table and is bit-for-bit unchanged (N, H and C are defined).
pub proof fn lemma_add_hl_preserves_zero(cpu: CpuV, op: u8)
    requires
        op < 0x40,
        op % 16 == 9,
    ensures
        flag_z(execute_spec(cpu, op).0.flags) == flag_z(cpu.flags),
{
    let hl = word_of(cpu.l, cpu.h);
    let rr = rp_get(cpu, (op / 16) % 4);
    lemma_flags_pack(
        flag_z(cpu.flags),
        false,
        hl % 0x1000 + rr % 0x1000 > 0x0FFF,
        hl + rr > 0xFFFF,
    );
}

/// Flag isolation, accumulator housekeeping: DAA keeps N; CPL keeps Z and
/// C; SCF and CCF keep Z. (The group's other flags are all defined.)
pub proof fn lemma_acc_misc_flag_isolation(cpu: CpuV, op: u8)
    requires
        op == 0x27 || op == 0x2F || op == 0x37 || op == 0x3F,
    ensures
        op == 0x27 ==> flag_n(execute_spec(cpu, op).0.flags) == flag_n(cpu.flags),
        op == 0x2F ==> flag_z(execute_spec(cpu, op).0.flags) == flag_z(cpu.flags)
            && flag_c(execute_spec(cpu, op).0.flags) == flag_c(cpu.flags),
        (op == 0x37 || op == 0x3F) ==> flag_z(execute_spec(cpu, op).0.flags)
            == flag_z(cpu.flags),
{
    if op == 0x27 {
        let rf = daa_result(cpu.a, cpu.flags);
        lemma_flags_pack(rf.0 == 0, flag_n(cpu.flags), false, flag_c(rf.1));
        if !flag_n(cpu.flags) {
            let c1 = flag_c(cpu.flags) || cpu.a > 0x99;
            lemma_flags_pack(rf.0 == 0, flag_n(cpu.flags), false, c1);
        } else {
            lemma_flags_pack(rf.0 == 0, flag_n(cpu.flags), false, flag_c(cpu.flags));
        }
    } else if op == 0x2F {
        lemma_flags_pack(flag_z(cpu.flags), true, true, flag_c(cpu.flags));
    } else if op == 0x37 {
        lemma_flags_pack(flag_z(cpu.flags), false, false, true);
    } else {
        lemma_flags_pack(flag_z(cpu.flags), false, false, !flag_c(cpu.flags));
    }
}

/// Flag isolation, INC/DEC family: the carry flag is not in the family's
/// flag-effect table and is bit-for-bit unchanged (Z, N and H are defined).
pub proof fn lemma_inc_dec_preserve_carry(cpu: CpuV, op: u8)
    requires
        op < 0x40,
        op % 8 == 4 || op % 8 == 5,
    ensures
        flag_c(execute_spec(cpu, op).0.flags) == flag_c(cpu.flags),
{
    let idx = (op / 8) % 8;
    if op % 8 == 4 {
        let rf = inc_result(operand_get(cpu, idx), cpu.flags);
        lemma_flags_pack(rf.0 == 0, false, operand_get(cpu, idx) % 16 == 15, flag_c(cpu.flags));
    } else {
        let rf = dec_result(operand_get(cpu, idx), cpu.flags);
        lemma_flags_pack(rf.0 == 0, true, operand_get(cpu, idx) % 16 == 0, flag_c(cpu.flags));
    }
}

/// Flag isolation, stack family: PUSH, and POP of BC, DE or HL, leave the
/// flag byte bit-for-bit unchanged. (POP AF defines the whole flag byte.)
pub proof fn lemma_stack_preserves_flags(cpu: CpuV, op: u8)
    requires
        0xC0 <= op,
        op % 16 == 5 || (op % 16 == 1 && (op / 16) % 4 != 3),
    ensures
        execute_spec(cpu, op).0.flags == cpu.flags,
{
}

/// The interrupt/power opcodes HALT, STOP, DI and EI drive machinery this
/// core leaves to its out-of-scope peripheral collaborators: within this
/// state model they change nothing and cost one machine cycle.
pub proof fn lemma_interrupt_power_noop(cpu: CpuV, op: u8)
    requires
        op == 0x10 || op == 0x76 || op == 0xF3 || op == 0xFB,
    ensures
        execute_spec(cpu, op) == (cpu, 4u8),
{
}

/// The illegal-opcode policy: each of the eleven opcodes the platform
/// leaves undefined is a no-op costing one machine cycle; the engine
/// continues rather than halting.
pub proof fn lemma_illegal_opcode_noop(cpu: CpuV, op: u8)
    requires
        op == 0xD3 || op == 0xDB || op == 0xDD || op == 0xE3 || op == 0xE4 || op == 0xEB
            || op == 0xEC || op == 0xED || op == 0xF4 || op == 0xFC || op == 0xFD,
    ensures
        execute_spec(cpu, op) == (cpu, 4u8),
{
}

/// The prefix byte reaching the extended opcode table is not encoded by
/// this core; it falls under the same documented no-op policy.
pub proof fn lemma_prefix_byte_noop(cpu: CpuV)
    ensures
        execute_spec(cpu, 0xCB) == (cpu, 4u8),
{
}

/// Stack round-trip, one byte: when the address below SP resolves to a
/// region that is writable and readable, `push(v)` then `pop()` returns `v`
/// and leaves SP at its original value, registers and flags untouched.
pub proof fn lemma_stack_round_trip(cpu: CpuV, v: u8)
    requires
        cpu_wf(cpu),
        ({
            let m = crate::memory::first_match(cpu.mem, cpu.sp.wrapping_sub(1));
            &&& m is Some
            &&& cpu.mem[m->Some_0].ram.writable
            &&& cpu.mem[m->Some_0].ram.readable
        }),
    ensures
        pop_val(push_spec(cpu, v)) == v,
        pop_post(push_spec(cpu, v)).sp == cpu.sp,
        pop_post(push_spec(cpu, v)) == (CpuV { mem: push_spec(cpu, v).mem, ..cpu }),
{
    let sp2 = cpu.sp.wrapping_sub(1);
    let i = crate::memory::first_match(cpu.mem, sp2)->Some_0;
    crate::memory::lemma_first_match_props(cpu.mem, sp2, 0);
    crate::memory::lemma_read_after_write(cpu.mem, sp2, v, i);
}

/// Stack round-trip, 16 bits: a word pushed high byte first (so the high
/// byte is popped last) is recovered by popping the low byte then the high
/// byte, and SP returns to its original value — provided both stack
/// addresses resolve to writable, readable regions.
pub proof fn lemma_stack_round_trip16(cpu: CpuV, v: u16)
    requires
        cpu_wf(cpu),
        ({
            let m = crate::memory::first_match(cpu.mem, cpu.sp.wrapping_sub(1));
            &&& m is Some
            &&& cpu.mem[m->Some_0].ram.writable
            &&& cpu.mem[m->Some_0].ram.readable
        }),
        ({
            let m = crate::memory::first_match(cpu.mem, cpu.sp.wrapping_sub(2));
            &&& m is Some
            &&& cpu.mem[m->Some_0].ram.writable
            &&& cpu.mem[m->Some_0].ram.readable
        }),
    ensures
        ({
            let pushed = push_spec(push_spec(cpu, hi_byte(v)), lo_byte(v));
            let lo = pop_val(pushed);
            let after_lo = pop_post(pushed);
            let hi = pop_val(after_lo);
            let after_hi = pop_post(after_lo);
            &&& lo == lo_byte(v)
            &&& hi == hi_byte(v)
            &&& word_of(lo, hi) == v
            &&& after_hi.sp == cpu.sp
        }),
{
    let a1 = cpu.sp.wrapping_sub(1);
    let a2 = cpu.sp.wrapping_sub(2);
    assert(a1 != a2);
    let m0 = cpu.mem;
    let m1 = bus_write_spec(m0, a1, hi_byte(v));
    let m2 = bus_write_spec(m1, a2, lo_byte(v));
    let i1 = crate::memory::first_match(m0, a1)->Some_0;
    let i2 = crate::memory::first_match(m0, a2)->Some_0;
    crate::memory::lemma_first_match_props(m0, a1, 0);
    crate::memory::lemma_first_match_props(m0, a2, 0);
    crate::memory::lemma_write_preserves_layout(m0, a1, hi_byte(v));
    crate::memory::lemma_same_layout_same_match(m0, m1, a2, 0);
    crate::memory::lemma_read_after_write(m1, a2, lo_byte(v), i2);
    crate::memory::lemma_read_frame(m1, a1, a2, lo_byte(v));
    crate::memory::lemma_read_after_write(m0, a1, hi_byte(v), i1);
}

/// State after `n` consecutive fetches.
pub open spec fn fetch_n(cpu: CpuV, n: nat) -> CpuV
    decreases n,
{
    if n == 0 {
        cpu
    } else {
        fetch_post(fetch_n(cpu, (n - 1) as nat))
    }
}

/// Fetch advances PC: `n` fetches starting at PC = `p` return, in order,
/// the bus bytes at `p, p + 1, ..., p + n - 1`, leave PC = `p + n`, and
/// change nothing else — as long as PC does not run past the top of the
/// address space.
pub proof fn lemma_fetch_advances_pc(cpu: CpuV, n: nat)
    requires
        cpu.pc + n < 0x10000,
    ensures
        fetch_n(cpu, n) == (CpuV { pc: (cpu.pc + n) as u16, ..cpu }),
        forall|i: int| 0 <= i < n ==> fetch_val(#[trigger] fetch_n(cpu, i as nat))
            == bus_read_spec(cpu.mem, (cpu.pc + i) as u16),
    decreases n,
{
    if n > 0 {
        lemma_fetch_advances_pc(cpu, (n - 1) as nat);
    }
}

} // verus!

