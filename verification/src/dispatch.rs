//! The two instruction tables: for each opcode the instruction it stands
//! for, and what it costs.

use crate::isa::{
    base_cycles, decode, decode_cb, direct, extended_cycles, indirect, indirect_dec,
    indirect_inc, CbInstr, Cond, Instr, Operand,
};
use crate::regset::Reg;
use vstd::prelude::*;

verus! {

/// The cost in clock ticks of each opcode of the base table.
pub const BASE_CYCLES: [u8; 256] = [
    4, 12, 8, 8, 4, 4, 8, 4, 20, 8, 8, 8, 4, 4, 8, 4,
    4, 12, 8, 8, 4, 4, 8, 4, 12, 8, 8, 8, 4, 4, 8, 4,
    8, 12, 8, 8, 4, 4, 8, 4, 8, 8, 8, 8, 4, 4, 8, 4,
    8, 12, 8, 8, 12, 12, 12, 4, 8, 8, 8, 8, 4, 4, 8, 4,
    4, 4, 4, 4, 4, 4, 8, 4, 4, 4, 4, 4, 4, 4, 8, 4,
    4, 4, 4, 4, 4, 4, 8, 4, 4, 4, 4, 4, 4, 4, 8, 4,
    4, 4, 4, 4, 4, 4, 8, 4, 4, 4, 4, 4, 4, 4, 8, 4,
    8, 8, 8, 8, 8, 8, 4, 8, 4, 4, 4, 4, 4, 4, 8, 4,
    4, 4, 4, 4, 4, 4, 8, 4, 4, 4, 4, 4, 4, 4, 8, 4,
    4, 4, 4, 4, 4, 4, 8, 4, 4, 4, 4, 4, 4, 4, 8, 4,
    4, 4, 4, 4, 4, 4, 8, 4, 4, 4, 4, 4, 4, 4, 8, 4,
    4, 4, 4, 4, 4, 4, 8, 4, 4, 4, 4, 4, 4, 4, 8, 4,
    8, 12, 12, 16, 12, 16, 8, 16, 8, 16, 12, 4, 12, 24, 8, 16,
    8, 12, 12, 0, 12, 16, 8, 16, 8, 16, 12, 0, 12, 0, 8, 16,
    12, 12, 8, 0, 0, 16, 8, 16, 16, 4, 16, 0, 0, 0, 8, 16,
    12, 12, 8, 4, 0, 16, 8, 16, 12, 8, 16, 4, 0, 0, 8, 16,
];

/// The cost in clock ticks of each opcode of the extended table.
pub const EXTENDED_CYCLES: [u8; 256] = [
    8, 8, 8, 8, 8, 8, 16, 8, 8, 8, 8, 8, 8, 8, 16, 8,
    8, 8, 8, 8, 8, 8, 16, 8, 8, 8, 8, 8, 8, 8, 16, 8,
    8, 8, 8, 8, 8, 8, 16, 8, 8, 8, 8, 8, 8, 8, 16, 8,
    8, 8, 8, 8, 8, 8, 16, 8, 8, 8, 8, 8, 8, 8, 16, 8,
    8, 8, 8, 8, 8, 8, 16, 8, 8, 8, 8, 8, 8, 8, 16, 8,
    8, 8, 8, 8, 8, 8, 16, 8, 8, 8, 8, 8, 8, 8, 16, 8,
    8, 8, 8, 8, 8, 8, 16, 8, 8, 8, 8, 8, 8, 8, 16, 8,
    8, 8, 8, 8, 8, 8, 16, 8, 8, 8, 8, 8, 8, 8, 16, 8,
    8, 8, 8, 8, 8, 8, 16, 8, 8, 8, 8, 8, 8, 8, 16, 8,
    8, 8, 8, 8, 8, 8, 16, 8, 8, 8, 8, 8, 8, 8, 16, 8,
    8, 8, 8, 8, 8, 8, 16, 8, 8, 8, 8, 8, 8, 8, 16, 8,
    8, 8, 8, 8, 8, 8, 16, 8, 8, 8, 8, 8, 8, 8, 16, 8,
    8, 8, 8, 8, 8, 8, 16, 8, 8, 8, 8, 8, 8, 8, 16, 8,
    8, 8, 8, 8, 8, 8, 16, 8, 8, 8, 8, 8, 8, 8, 16, 8,
    8, 8, 8, 8, 8, 8, 16, 8, 8, 8, 8, 8, 8, 8, 16, 8,
    8, 8, 8, 8, 8, 8, 16, 8, 8, 8, 8, 8, 8, 8, 16, 8,
];

/// The operand that is the register `name`.
pub fn reg(name: Reg) -> (o: Operand)
    ensures
        o == direct(name),
{
    Operand::Reg { name, inc: false, dec: false, addr: false }
}

/// The operand that is the memory cell at the address in `name`.
pub fn cell(name: Reg) -> (o: Operand)
    ensures
        o == indirect(name),
{
    Operand::Reg { name, inc: false, dec: false, addr: true }
}

/// The operand that is the memory cell at the address in `name`, which goes
/// up by one after the access.
pub fn cell_inc(name: Reg) -> (o: Operand)
    ensures
        o == indirect_inc(name),
{
    Operand::Reg { name, inc: true, dec: false, addr: true }
}

/// The operand that is the memory cell at the address in `name`, which goes
/// down by one after the access.
pub fn cell_dec(name: Reg) -> (o: Operand)
    ensures
        o == indirect_dec(name),
{
    Operand::Reg { name, inc: false, dec: true, addr: true }
}

/// Looks an opcode up in the base table.
pub fn base_instr(op: u8) -> (instr: Instr)
    ensures
        instr == decode(op),
{
    let a = reg(Reg::A);
    let b = reg(Reg::B);
    let c = reg(Reg::C);
    let d = reg(Reg::D);
    let e = reg(Reg::E);
    let h = reg(Reg::H);
    let l = reg(Reg::L);
    let at_hl = cell(Reg::HL);
    let bc = reg(Reg::BC);
    let de = reg(Reg::DE);
    let hl = reg(Reg::HL);
    let at_bc = cell(Reg::BC);
    let at_de = cell(Reg::DE);
    let at_c = cell(Reg::C);
    let at_hl_inc = cell_inc(Reg::HL);
    let at_hl_dec = cell_dec(Reg::HL);
    match op {
        0x00 => Instr::Nop,
        0x01 => Instr::Ld(bc, Operand::D16),
        0x02 => Instr::Ld(at_bc, a),
        0x03 => Instr::Inc(bc),
        0x04 => Instr::Inc(b),
        0x05 => Instr::Dec(b),
        0x06 => Instr::Ld(b, Operand::D8),
        0x07 => Instr::Rlca,
        0x08 => Instr::Ld(Operand::A16, Operand::SP),
        0x09 => Instr::AddHl(bc),
        0x0a => Instr::Ld(a, at_bc),
        0x0b => Instr::Dec(bc),
        0x0c => Instr::Inc(c),
        0x0d => Instr::Dec(c),
        0x0e => Instr::Ld(c, Operand::D8),
        0x0f => Instr::Rrca,
        0x10 => Instr::Stop,
        0x11 => Instr::Ld(de, Operand::D16),
        0x12 => Instr::Ld(at_de, a),
        0x13 => Instr::Inc(de),
        0x14 => Instr::Inc(d),
        0x15 => Instr::Dec(d),
        0x16 => Instr::Ld(d, Operand::D8),
        0x17 => Instr::Rla,
        0x18 => Instr::Jr(Cond::Always, Operand::R8),
        0x19 => Instr::AddHl(de),
        0x1a => Instr::Ld(a, at_de),
        0x1b => Instr::Dec(de),
        0x1c => Instr::Inc(e),
        0x1d => Instr::Dec(e),
        0x1e => Instr::Ld(e, Operand::D8),
        0x1f => Instr::Rra,
        0x20 => Instr::Jr(Cond::NZ, Operand::R8),
        0x21 => Instr::Ld(hl, Operand::D16),
        0x22 => Instr::Ld(at_hl_inc, a),
        0x23 => Instr::Inc(hl),
        0x24 => Instr::Inc(h),
        0x25 => Instr::Dec(h),
        0x26 => Instr::Ld(h, Operand::D8),
        0x27 => Instr::Daa,
        0x28 => Instr::Jr(Cond::Z, Operand::R8),
        0x29 => Instr::AddHl(hl),
        0x2a => Instr::Ld(a, at_hl_inc),
        0x2b => Instr::Dec(hl),
        0x2c => Instr::Inc(l),
        0x2d => Instr::Dec(l),
        0x2e => Instr::Ld(l, Operand::D8),
        0x2f => Instr::Cpl,
        0x30 => Instr::Jr(Cond::NC, Operand::R8),
        0x31 => Instr::Ld(Operand::SP, Operand::D16),
        0x32 => Instr::Ld(at_hl_dec, a),
        0x33 => Instr::Inc(Operand::SP),
        0x34 => Instr::Inc(at_hl),
        0x35 => Instr::Dec(at_hl),
        0x36 => Instr::Ld(at_hl, Operand::D8),
        0x37 => Instr::Scf,
        0x38 => Instr::Jr(Cond::C, Operand::R8),
        0x39 => Instr::AddHl(Operand::SP),
        0x3a => Instr::Ld(a, at_hl_dec),
        0x3b => Instr::Dec(Operand::SP),
        0x3c => Instr::Inc(a),
        0x3d => Instr::Dec(a),
        0x3e => Instr::Ld(a, Operand::D8),
        0x3f => Instr::Ccf,
        0x40 => Instr::Ld(b, b),
        0x41 => Instr::Ld(b, c),
        0x42 => Instr::Ld(b, d),
        0x43 => Instr::Ld(b, e),
        0x44 => Instr::Ld(b, h),
        0x45 => Instr::Ld(b, l),
        0x46 => Instr::Ld(b, at_hl),
        0x47 => Instr::Ld(b, a),
        0x48 => Instr::Ld(c, b),
        0x49 => Instr::Ld(c, c),
        0x4a => Instr::Ld(c, d),
        0x4b => Instr::Ld(c, e),
        0x4c => Instr::Ld(c, h),
        0x4d => Instr::Ld(c, l),
        0x4e => Instr::Ld(c, at_hl),
        0x4f => Instr::Ld(c, a),
        0x50 => Instr::Ld(d, b),
        0x51 => Instr::Ld(d, c),
        0x52 => Instr::Ld(d, d),
        0x53 => Instr::Ld(d, e),
        0x54 => Instr::Ld(d, h),
        0x55 => Instr::Ld(d, l),
        0x56 => Instr::Ld(d, at_hl),
        0x57 => Instr::Ld(d, a),
        0x58 => Instr::Ld(e, b),
        0x59 => Instr::Ld(e, c),
        0x5a => Instr::Ld(e, d),
        0x5b => Instr::Ld(e, e),
        0x5c => Instr::Ld(e, h),
        0x5d => Instr::Ld(e, l),
        0x5e => Instr::Ld(e, at_hl),
        0x5f => Instr::Ld(e, a),
        0x60 => Instr::Ld(h, b),
        0x61 => Instr::Ld(h, c),
        0x62 => Instr::Ld(h, d),
        0x63 => Instr::Ld(h, e),
        0x64 => Instr::Ld(h, h),
        0x65 => Instr::Ld(h, l),
        0x66 => Instr::Ld(h, at_hl),
        0x67 => Instr::Ld(h, a),
        0x68 => Instr::Ld(l, b),
        0x69 => Instr::Ld(l, c),
        0x6a => Instr::Ld(l, d),
        0x6b => Instr::Ld(l, e),
        0x6c => Instr::Ld(l, h),
        0x6d => Instr::Ld(l, l),
        0x6e => Instr::Ld(l, at_hl),
        0x6f => Instr::Ld(l, a),
        0x70 => Instr::Ld(at_hl, b),
        0x71 => Instr::Ld(at_hl, c),
        0x72 => Instr::Ld(at_hl, d),
        0x73 => Instr::Ld(at_hl, e),
        0x74 => Instr::Ld(at_hl, h),
        0x75 => Instr::Ld(at_hl, l),
        0x76 => Instr::Halt,
        0x77 => Instr::Ld(at_hl, a),
        0x78 => Instr::Ld(a, b),
        0x79 => Instr::Ld(a, c),
        0x7a => Instr::Ld(a, d),
        0x7b => Instr::Ld(a, e),
        0x7c => Instr::Ld(a, h),
        0x7d => Instr::Ld(a, l),
        0x7e => Instr::Ld(a, at_hl),
        0x7f => Instr::Ld(a, a),
        0x80 => Instr::Add(b),
        0x81 => Instr::Add(c),
        0x82 => Instr::Add(d),
        0x83 => Instr::Add(e),
        0x84 => Instr::Add(h),
        0x85 => Instr::Add(l),
        0x86 => Instr::Add(at_hl),
        0x87 => Instr::Add(a),
        0x88 => Instr::Adc(b),
        0x89 => Instr::Adc(c),
        0x8a => Instr::Adc(d),
        0x8b => Instr::Adc(e),
        0x8c => Instr::Adc(h),
        0x8d => Instr::Adc(l),
        0x8e => Instr::Adc(at_hl),
        0x8f => Instr::Adc(a),
        0x90 => Instr::Sub(b),
        0x91 => Instr::Sub(c),
        0x92 => Instr::Sub(d),
        0x93 => Instr::Sub(e),
        0x94 => Instr::Sub(h),
        0x95 => Instr::Sub(l),
        0x96 => Instr::Sub(at_hl),
        0x97 => Instr::Sub(a),
        0x98 => Instr::Sbc(b),
        0x99 => Instr::Sbc(c),
        0x9a => Instr::Sbc(d),
        0x9b => Instr::Sbc(e),
        0x9c => Instr::Sbc(h),
        0x9d => Instr::Sbc(l),
        0x9e => Instr::Sbc(at_hl),
        0x9f => Instr::Sbc(a),
        0xa0 => Instr::And(b),
        0xa1 => Instr::And(c),
        0xa2 => Instr::And(d),
        0xa3 => Instr::And(e),
        0xa4 => Instr::And(h),
        0xa5 => Instr::And(l),
        0xa6 => Instr::And(at_hl),
        0xa7 => Instr::And(a),
        0xa8 => Instr::Xor(b),
        0xa9 => Instr::Xor(c),
        0xaa => Instr::Xor(d),
        0xab => Instr::Xor(e),
        0xac => Instr::Xor(h),
        0xad => Instr::Xor(l),
        0xae => Instr::Xor(at_hl),
        0xaf => Instr::Xor(a),
        0xb0 => Instr::Or(b),
        0xb1 => Instr::Or(c),
        0xb2 => Instr::Or(d),
        0xb3 => Instr::Or(e),
        0xb4 => Instr::Or(h),
        0xb5 => Instr::Or(l),
        0xb6 => Instr::Or(at_hl),
        0xb7 => Instr::Or(a),
        0xb8 => Instr::Cp(b),
        0xb9 => Instr::Cp(c),
        0xba => Instr::Cp(d),
        0xbb => Instr::Cp(e),
        0xbc => Instr::Cp(h),
        0xbd => Instr::Cp(l),
        0xbe => Instr::Cp(at_hl),
        0xbf => Instr::Cp(a),
        0xc0 => Instr::Ret(Cond::NZ),
        0xc1 => Instr::Pop(Reg::BC),
        0xc2 => Instr::Jp(Cond::NZ, Operand::D16),
        0xc3 => Instr::Jp(Cond::Always, Operand::D16),
        0xc4 => Instr::Call(Cond::NZ, Operand::D16),
        0xc5 => Instr::Push(Reg::BC),
        0xc6 => Instr::Add(Operand::D8),
        0xc7 => Instr::Rst(0x00),
        0xc8 => Instr::Ret(Cond::Z),
        0xc9 => Instr::Ret(Cond::Always),
        0xca => Instr::Jp(Cond::Z, Operand::D16),
        0xcb => Instr::Prefix,
        0xcc => Instr::Call(Cond::Z, Operand::D16),
        0xcd => Instr::Call(Cond::Always, Operand::D16),
        0xce => Instr::Adc(Operand::D8),
        0xcf => Instr::Rst(0x08),
        0xd0 => Instr::Ret(Cond::NC),
        0xd1 => Instr::Pop(Reg::DE),
        0xd2 => Instr::Jp(Cond::NC, Operand::D16),
        0xd3 => Instr::Unused,
        0xd4 => Instr::Call(Cond::NC, Operand::D16),
        0xd5 => Instr::Push(Reg::DE),
        0xd6 => Instr::Sub(Operand::D8),
        0xd7 => Instr::Rst(0x10),
        0xd8 => Instr::Ret(Cond::C),
        0xd9 => Instr::Reti,
        0xda => Instr::Jp(Cond::C, Operand::D16),
        0xdb => Instr::Unused,
        0xdc => Instr::Call(Cond::C, Operand::D16),
        0xdd => Instr::Unused,
        0xde => Instr::Sbc(Operand::D8),
        0xdf => Instr::Rst(0x18),
        0xe0 => Instr::Ldh(Operand::A8, a),
        0xe1 => Instr::Pop(Reg::HL),
        0xe2 => Instr::Ld(at_c, a),
        0xe3 => Instr::Unused,
        0xe4 => Instr::Unused,
        0xe5 => Instr::Push(Reg::HL),
        0xe6 => Instr::And(Operand::D8),
        0xe7 => Instr::Rst(0x20),
        0xe8 => Instr::AddSp,
        0xe9 => Instr::Jp(Cond::Always, hl),
        0xea => Instr::Ld(Operand::A16, a),
        0xeb => Instr::Unused,
        0xec => Instr::Unused,
        0xed => Instr::Unused,
        0xee => Instr::Xor(Operand::D8),
        0xef => Instr::Rst(0x28),
        0xf0 => Instr::Ldh(a, Operand::A8),
        0xf1 => Instr::Pop(Reg::AF),
        0xf2 => Instr::Ld(a, at_c),
        0xf3 => Instr::Di,
        0xf4 => Instr::Unused,
        0xf5 => Instr::Push(Reg::AF),
        0xf6 => Instr::Or(Operand::D8),
        0xf7 => Instr::Rst(0x30),
        0xf8 => Instr::LdHlSp,
        0xf9 => Instr::Ld(Operand::SP, hl),
        0xfa => Instr::Ld(a, Operand::A16),
        0xfb => Instr::Ei,
        0xfc => Instr::Unused,
        0xfd => Instr::Unused,
        0xfe => Instr::Cp(Operand::D8),
        0xff => Instr::Rst(0x38),
    }
}

/// Looks an opcode up in the extended table.
pub fn extended_instr(op: u8) -> (instr: CbInstr)
    ensures
        instr == decode_cb(op),
{
    let a = reg(Reg::A);
    let b = reg(Reg::B);
    let c = reg(Reg::C);
    let d = reg(Reg::D);
    let e = reg(Reg::E);
    let h = reg(Reg::H);
    let l = reg(Reg::L);
    let at_hl = cell(Reg::HL);
    match op {
        0x00 => CbInstr::Rlc(b),
        0x01 => CbInstr::Rlc(c),
        0x02 => CbInstr::Rlc(d),
        0x03 => CbInstr::Rlc(e),
        0x04 => CbInstr::Rlc(h),
        0x05 => CbInstr::Rlc(l),
        0x06 => CbInstr::Rlc(at_hl),
        0x07 => CbInstr::Rlc(a),
        0x08 => CbInstr::Rrc(b),
        0x09 => CbInstr::Rrc(c),
        0x0a => CbInstr::Rrc(d),
        0x0b => CbInstr::Rrc(e),
        0x0c => CbInstr::Rrc(h),
        0x0d => CbInstr::Rrc(l),
        0x0e => CbInstr::Rrc(at_hl),
        0x0f => CbInstr::Rrc(a),
        0x10 => CbInstr::Rl(b),
        0x11 => CbInstr::Rl(c),
        0x12 => CbInstr::Rl(d),
        0x13 => CbInstr::Rl(e),
        0x14 => CbInstr::Rl(h),
        0x15 => CbInstr::Rl(l),
        0x16 => CbInstr::Rl(at_hl),
        0x17 => CbInstr::Rl(a),
        0x18 => CbInstr::Rr(b),
        0x19 => CbInstr::Rr(c),
        0x1a => CbInstr::Rr(d),
        0x1b => CbInstr::Rr(e),
        0x1c => CbInstr::Rr(h),
        0x1d => CbInstr::Rr(l),
        0x1e => CbInstr::Rr(at_hl),
        0x1f => CbInstr::Rr(a),
        0x20 => CbInstr::Sla(b),
        0x21 => CbInstr::Sla(c),
        0x22 => CbInstr::Sla(d),
        0x23 => CbInstr::Sla(e),
        0x24 => CbInstr::Sla(h),
        0x25 => CbInstr::Sla(l),
        0x26 => CbInstr::Sla(at_hl),
        0x27 => CbInstr::Sla(a),
        0x28 => CbInstr::Sra(b),
        0x29 => CbInstr::Sra(c),
        0x2a => CbInstr::Sra(d),
        0x2b => CbInstr::Sra(e),
        0x2c => CbInstr::Sra(h),
        0x2d => CbInstr::Sra(l),
        0x2e => CbInstr::Sra(at_hl),
        0x2f => CbInstr::Sra(a),
        0x30 => CbInstr::Swap(b),
        0x31 => CbInstr::Swap(c),
        0x32 => CbInstr::Swap(d),
        0x33 => CbInstr::Swap(e),
        0x34 => CbInstr::Swap(h),
        0x35 => CbInstr::Swap(l),
        0x36 => CbInstr::Swap(at_hl),
        0x37 => CbInstr::Swap(a),
        0x38 => CbInstr::Srl(b),
        0x39 => CbInstr::Srl(c),
        0x3a => CbInstr::Srl(d),
        0x3b => CbInstr::Srl(e),
        0x3c => CbInstr::Srl(h),
        0x3d => CbInstr::Srl(l),
        0x3e => CbInstr::Srl(at_hl),
        0x3f => CbInstr::Srl(a),
        0x40 => CbInstr::Bit(0, b),
        0x41 => CbInstr::Bit(0, c),
        0x42 => CbInstr::Bit(0, d),
        0x43 => CbInstr::Bit(0, e),
        0x44 => CbInstr::Bit(0, h),
        0x45 => CbInstr::Bit(0, l),
        0x46 => CbInstr::Bit(0, at_hl),
        0x47 => CbInstr::Bit(0, a),
        0x48 => CbInstr::Bit(1, b),
        0x49 => CbInstr::Bit(1, c),
        0x4a => CbInstr::Bit(1, d),
        0x4b => CbInstr::Bit(1, e),
        0x4c => CbInstr::Bit(1, h),
        0x4d => CbInstr::Bit(1, l),
        0x4e => CbInstr::Bit(1, at_hl),
        0x4f => CbInstr::Bit(1, a),
        0x50 => CbInstr::Bit(2, b),
        0x51 => CbInstr::Bit(2, c),
        0x52 => CbInstr::Bit(2, d),
        0x53 => CbInstr::Bit(2, e),
        0x54 => CbInstr::Bit(2, h),
        0x55 => CbInstr::Bit(2, l),
        0x56 => CbInstr::Bit(2, at_hl),
        0x57 => CbInstr::Bit(2, a),
        0x58 => CbInstr::Bit(3, b),
        0x59 => CbInstr::Bit(3, c),
        0x5a => CbInstr::Bit(3, d),
        0x5b => CbInstr::Bit(3, e),
        0x5c => CbInstr::Bit(3, h),
        0x5d => CbInstr::Bit(3, l),
        0x5e => CbInstr::Bit(3, at_hl),
        0x5f => CbInstr::Bit(3, a),
        0x60 => CbInstr::Bit(4, b),
        0x61 => CbInstr::Bit(4, c),
        0x62 => CbInstr::Bit(4, d),
        0x63 => CbInstr::Bit(4, e),
        0x64 => CbInstr::Bit(4, h),
        0x65 => CbInstr::Bit(4, l),
        0x66 => CbInstr::Bit(4, at_hl),
        0x67 => CbInstr::Bit(4, a),
        0x68 => CbInstr::Bit(5, b),
        0x69 => CbInstr::Bit(5, c),
        0x6a => CbInstr::Bit(5, d),
        0x6b => CbInstr::Bit(5, e),
        0x6c => CbInstr::Bit(5, h),
        0x6d => CbInstr::Bit(5, l),
        0x6e => CbInstr::Bit(5, at_hl),
        0x6f => CbInstr::Bit(5, a),
        0x70 => CbInstr::Bit(6, b),
        0x71 => CbInstr::Bit(6, c),
        0x72 => CbInstr::Bit(6, d),
        0x73 => CbInstr::Bit(6, e),
        0x74 => CbInstr::Bit(6, h),
        0x75 => CbInstr::Bit(6, l),
        0x76 => CbInstr::Bit(6, at_hl),
        0x77 => CbInstr::Bit(6, a),
        0x78 => CbInstr::Bit(7, b),
        0x79 => CbInstr::Bit(7, c),
        0x7a => CbInstr::Bit(7, d),
        0x7b => CbInstr::Bit(7, e),
        0x7c => CbInstr::Bit(7, h),
        0x7d => CbInstr::Bit(7, l),
        0x7e => CbInstr::Bit(7, at_hl),
        0x7f => CbInstr::Bit(7, a),
        0x80 => CbInstr::Res(0, b),
        0x81 => CbInstr::Res(0, c),
        0x82 => CbInstr::Res(0, d),
        0x83 => CbInstr::Res(0, e),
        0x84 => CbInstr::Res(0, h),
        0x85 => CbInstr::Res(0, l),
        0x86 => CbInstr::Res(0, at_hl),
        0x87 => CbInstr::Res(0, a),
        0x88 => CbInstr::Res(1, b),
        0x89 => CbInstr::Res(1, c),
        0x8a => CbInstr::Res(1, d),
        0x8b => CbInstr::Res(1, e),
        0x8c => CbInstr::Res(1, h),
        0x8d => CbInstr::Res(1, l),
        0x8e => CbInstr::Res(1, at_hl),
        0x8f => CbInstr::Res(1, a),
        0x90 => CbInstr::Res(2, b),
        0x91 => CbInstr::Res(2, c),
        0x92 => CbInstr::Res(2, d),
        0x93 => CbInstr::Res(2, e),
        0x94 => CbInstr::Res(2, h),
        0x95 => CbInstr::Res(2, l),
        0x96 => CbInstr::Res(2, at_hl),
        0x97 => CbInstr::Res(2, a),
        0x98 => CbInstr::Res(3, b),
        0x99 => CbInstr::Res(3, c),
        0x9a => CbInstr::Res(3, d),
        0x9b => CbInstr::Res(3, e),
        0x9c => CbInstr::Res(3, h),
        0x9d => CbInstr::Res(3, l),
        0x9e => CbInstr::Res(3, at_hl),
        0x9f => CbInstr::Res(3, a),
        0xa0 => CbInstr::Res(4, b),
        0xa1 => CbInstr::Res(4, c),
        0xa2 => CbInstr::Res(4, d),
        0xa3 => CbInstr::Res(4, e),
        0xa4 => CbInstr::Res(4, h),
        0xa5 => CbInstr::Res(4, l),
        0xa6 => CbInstr::Res(4, at_hl),
        0xa7 => CbInstr::Res(4, a),
        0xa8 => CbInstr::Res(5, b),
        0xa9 => CbInstr::Res(5, c),
        0xaa => CbInstr::Res(5, d),
        0xab => CbInstr::Res(5, e),
        0xac => CbInstr::Res(5, h),
        0xad => CbInstr::Res(5, l),
        0xae => CbInstr::Res(5, at_hl),
        0xaf => CbInstr::Res(5, a),
        0xb0 => CbInstr::Res(6, b),
        0xb1 => CbInstr::Res(6, c),
        0xb2 => CbInstr::Res(6, d),
        0xb3 => CbInstr::Res(6, e),
        0xb4 => CbInstr::Res(6, h),
        0xb5 => CbInstr::Res(6, l),
        0xb6 => CbInstr::Res(6, at_hl),
        0xb7 => CbInstr::Res(6, a),
        0xb8 => CbInstr::Res(7, b),
        0xb9 => CbInstr::Res(7, c),
        0xba => CbInstr::Res(7, d),
        0xbb => CbInstr::Res(7, e),
        0xbc => CbInstr::Res(7, h),
        0xbd => CbInstr::Res(7, l),
        0xbe => CbInstr::Res(7, at_hl),
        0xbf => CbInstr::Res(7, a),
        0xc0 => CbInstr::SetBit(0, b),
        0xc1 => CbInstr::SetBit(0, c),
        0xc2 => CbInstr::SetBit(0, d),
        0xc3 => CbInstr::SetBit(0, e),
        0xc4 => CbInstr::SetBit(0, h),
        0xc5 => CbInstr::SetBit(0, l),
        0xc6 => CbInstr::SetBit(0, at_hl),
        0xc7 => CbInstr::SetBit(0, a),
        0xc8 => CbInstr::SetBit(1, b),
        0xc9 => CbInstr::SetBit(1, c),
        0xca => CbInstr::SetBit(1, d),
        0xcb => CbInstr::SetBit(1, e),
        0xcc => CbInstr::SetBit(1, h),
        0xcd => CbInstr::SetBit(1, l),
        0xce => CbInstr::SetBit(1, at_hl),
        0xcf => CbInstr::SetBit(1, a),
        0xd0 => CbInstr::SetBit(2, b),
        0xd1 => CbInstr::SetBit(2, c),
        0xd2 => CbInstr::SetBit(2, d),
        0xd3 => CbInstr::SetBit(2, e),
        0xd4 => CbInstr::SetBit(2, h),
        0xd5 => CbInstr::SetBit(2, l),
        0xd6 => CbInstr::SetBit(2, at_hl),
        0xd7 => CbInstr::SetBit(2, a),
        0xd8 => CbInstr::SetBit(3, b),
        0xd9 => CbInstr::SetBit(3, c),
        0xda => CbInstr::SetBit(3, d),
        0xdb => CbInstr::SetBit(3, e),
        0xdc => CbInstr::SetBit(3, h),
        0xdd => CbInstr::SetBit(3, l),
        0xde => CbInstr::SetBit(3, at_hl),
        0xdf => CbInstr::SetBit(3, a),
        0xe0 => CbInstr::SetBit(4, b),
        0xe1 => CbInstr::SetBit(4, c),
        0xe2 => CbInstr::SetBit(4, d),
        0xe3 => CbInstr::SetBit(4, e),
        0xe4 => CbInstr::SetBit(4, h),
        0xe5 => CbInstr::SetBit(4, l),
        0xe6 => CbInstr::SetBit(4, at_hl),
        0xe7 => CbInstr::SetBit(4, a),
        0xe8 => CbInstr::SetBit(5, b),
        0xe9 => CbInstr::SetBit(5, c),
        0xea => CbInstr::SetBit(5, d),
        0xeb => CbInstr::SetBit(5, e),
        0xec => CbInstr::SetBit(5, h),
        0xed => CbInstr::SetBit(5, l),
        0xee => CbInstr::SetBit(5, at_hl),
        0xef => CbInstr::SetBit(5, a),
        0xf0 => CbInstr::SetBit(6, b),
        0xf1 => CbInstr::SetBit(6, c),
        0xf2 => CbInstr::SetBit(6, d),
        0xf3 => CbInstr::SetBit(6, e),
        0xf4 => CbInstr::SetBit(6, h),
        0xf5 => CbInstr::SetBit(6, l),
        0xf6 => CbInstr::SetBit(6, at_hl),
        0xf7 => CbInstr::SetBit(6, a),
        0xf8 => CbInstr::SetBit(7, b),
        0xf9 => CbInstr::SetBit(7, c),
        0xfa => CbInstr::SetBit(7, d),
        0xfb => CbInstr::SetBit(7, e),
        0xfc => CbInstr::SetBit(7, h),
        0xfd => CbInstr::SetBit(7, l),
        0xfe => CbInstr::SetBit(7, at_hl),
        0xff => CbInstr::SetBit(7, a),
    }
}

/// The cost of an opcode of the base table, in clock ticks.
#[verifier::rlimit(40)]
pub fn base_cost(op: u8) -> (cycles: usize)
    ensures
        cycles == base_cycles(op),
        cycles <= 24,
{
    BASE_CYCLES[op as usize] as usize
}

/// The cost of an opcode of the extended table, in clock ticks.
pub fn extended_cost(op: u8) -> (cycles: usize)
    ensures
        cycles == extended_cycles(op),
{
    EXTENDED_CYCLES[op as usize] as usize
}

} // verus!
