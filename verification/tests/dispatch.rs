use gameboy::dispatch::{
    base_cost, base_instr, cell, cell_dec, cell_inc, extended_cost, extended_instr, reg,
    BASE_CYCLES, EXTENDED_CYCLES,
};
use gameboy::isa::{CbInstr, Cond, Instr, Operand};
use gameboy::regset::Reg;

#[test]
fn base_table_names_loads() {
    assert_eq!(base_instr(0x01), Instr::Ld(reg(Reg::BC), Operand::D16));
    assert_eq!(base_instr(0x31), Instr::Ld(Operand::SP, Operand::D16));
    assert_eq!(base_instr(0x02), Instr::Ld(cell(Reg::BC), reg(Reg::A)));
    assert_eq!(base_instr(0x22), Instr::Ld(cell_inc(Reg::HL), reg(Reg::A)));
    assert_eq!(base_instr(0x3A), Instr::Ld(reg(Reg::A), cell_dec(Reg::HL)));
    assert_eq!(base_instr(0x08), Instr::Ld(Operand::A16, Operand::SP));
    assert_eq!(base_instr(0x46), Instr::Ld(reg(Reg::B), cell(Reg::HL)));
    assert_eq!(base_instr(0x7F), Instr::Ld(reg(Reg::A), reg(Reg::A)));
    assert_eq!(base_instr(0xE0), Instr::Ldh(Operand::A8, reg(Reg::A)));
    assert_eq!(base_instr(0xF0), Instr::Ldh(reg(Reg::A), Operand::A8));
    assert_eq!(base_instr(0xE2), Instr::Ld(cell(Reg::C), reg(Reg::A)));
    assert_eq!(base_instr(0xFA), Instr::Ld(reg(Reg::A), Operand::A16));
    assert_eq!(base_instr(0xF8), Instr::LdHlSp);
    assert_eq!(base_instr(0xF9), Instr::Ld(Operand::SP, reg(Reg::HL)));
}

#[test]
fn base_table_names_arithmetic_and_control() {
    assert_eq!(base_instr(0x00), Instr::Nop);
    assert_eq!(base_instr(0x10), Instr::Stop);
    assert_eq!(base_instr(0x76), Instr::Halt);
    assert_eq!(base_instr(0x80), Instr::Add(reg(Reg::B)));
    assert_eq!(base_instr(0x8E), Instr::Adc(cell(Reg::HL)));
    assert_eq!(base_instr(0x97), Instr::Sub(reg(Reg::A)));
    assert_eq!(base_instr(0xDE), Instr::Sbc(Operand::D8));
    assert_eq!(base_instr(0xA0), Instr::And(reg(Reg::B)));
    assert_eq!(base_instr(0xAF), Instr::Xor(reg(Reg::A)));
    assert_eq!(base_instr(0xB6), Instr::Or(cell(Reg::HL)));
    assert_eq!(base_instr(0xFE), Instr::Cp(Operand::D8));
    assert_eq!(base_instr(0x09), Instr::AddHl(reg(Reg::BC)));
    assert_eq!(base_instr(0x39), Instr::AddHl(Operand::SP));
    assert_eq!(base_instr(0xE8), Instr::AddSp);
    assert_eq!(base_instr(0x34), Instr::Inc(cell(Reg::HL)));
    assert_eq!(base_instr(0x3B), Instr::Dec(Operand::SP));
    assert_eq!(base_instr(0x18), Instr::Jr(Cond::Always, Operand::R8));
    assert_eq!(base_instr(0x20), Instr::Jr(Cond::NZ, Operand::R8));
    assert_eq!(base_instr(0xC3), Instr::Jp(Cond::Always, Operand::D16));
    assert_eq!(base_instr(0xE9), Instr::Jp(Cond::Always, reg(Reg::HL)));
    assert_eq!(base_instr(0xDA), Instr::Jp(Cond::C, Operand::D16));
    assert_eq!(base_instr(0xCD), Instr::Call(Cond::Always, Operand::D16));
    assert_eq!(base_instr(0xC4), Instr::Call(Cond::NZ, Operand::D16));
    assert_eq!(base_instr(0xC9), Instr::Ret(Cond::Always));
    assert_eq!(base_instr(0xD0), Instr::Ret(Cond::NC));
    assert_eq!(base_instr(0xD9), Instr::Reti);
    assert_eq!(base_instr(0xC7), Instr::Rst(0x00));
    assert_eq!(base_instr(0xFF), Instr::Rst(0x38));
    assert_eq!(base_instr(0xC5), Instr::Push(Reg::BC));
    assert_eq!(base_instr(0xF1), Instr::Pop(Reg::AF));
    assert_eq!(base_instr(0xCB), Instr::Prefix);
    assert_eq!(base_instr(0xF3), Instr::Di);
    assert_eq!(base_instr(0xFB), Instr::Ei);
}

#[test]
fn opcodes_without_behaviour_cost_nothing() {
    for op in [0xD3u8, 0xDB, 0xDD, 0xE3, 0xE4, 0xEB, 0xEC, 0xED, 0xF4, 0xFC, 0xFD] {
        assert_eq!(base_instr(op), Instr::Unused);
        assert_eq!(base_cost(op), 0);
    }
}

#[test]
fn extended_table_names_shifts_and_bits() {
    assert_eq!(extended_instr(0x00), CbInstr::Rlc(reg(Reg::B)));
    assert_eq!(extended_instr(0x0E), CbInstr::Rrc(cell(Reg::HL)));
    assert_eq!(extended_instr(0x11), CbInstr::Rl(reg(Reg::C)));
    assert_eq!(extended_instr(0x1F), CbInstr::Rr(reg(Reg::A)));
    assert_eq!(extended_instr(0x27), CbInstr::Sla(reg(Reg::A)));
    assert_eq!(extended_instr(0x28), CbInstr::Sra(reg(Reg::B)));
    assert_eq!(extended_instr(0x37), CbInstr::Swap(reg(Reg::A)));
    assert_eq!(extended_instr(0x3F), CbInstr::Srl(reg(Reg::A)));
    assert_eq!(extended_instr(0x40), CbInstr::Bit(0, reg(Reg::B)));
    assert_eq!(extended_instr(0x7C), CbInstr::Bit(7, reg(Reg::H)));
    assert_eq!(extended_instr(0x86), CbInstr::Res(0, cell(Reg::HL)));
    assert_eq!(extended_instr(0xBF), CbInstr::Res(7, reg(Reg::A)));
    assert_eq!(extended_instr(0xC0), CbInstr::SetBit(0, reg(Reg::B)));
    assert_eq!(extended_instr(0xFE), CbInstr::SetBit(7, cell(Reg::HL)));
}

#[test]
fn cycle_costs_of_chosen_opcodes() {
    assert_eq!(base_cost(0x00), 4);
    assert_eq!(base_cost(0x01), 12);
    assert_eq!(base_cost(0x08), 20);
    assert_eq!(base_cost(0x34), 12);
    assert_eq!(base_cost(0x46), 8);
    assert_eq!(base_cost(0x76), 4);
    assert_eq!(base_cost(0xC3), 16);
    assert_eq!(base_cost(0xCD), 24);
    assert_eq!(base_cost(0xE8), 16);
    assert_eq!(base_cost(0xE9), 4);
    assert_eq!(base_cost(0xFA), 16);
    assert_eq!(extended_cost(0x7C), 8);
    assert_eq!(extended_cost(0x46), 16);
    assert_eq!(extended_cost(0xFE), 16);
}

#[test]
fn every_cost_is_a_multiple_of_four_up_to_24() {
    for op in 0..=255u8 {
        let cost = base_cost(op);
        assert!(cost <= 24);
        assert_eq!(cost % 4, 0);
        assert_eq!(cost, BASE_CYCLES[op as usize] as usize);
        let extended = extended_cost(op);
        assert_eq!(extended, if op % 8 == 6 { 16 } else { 8 });
        assert_eq!(extended, EXTENDED_CYCLES[op as usize] as usize);
    }
}

#[test]
fn every_opcode_resolves_to_an_instruction() {
    let mut unused = 0;
    for op in 0..=255u8 {
        if base_instr(op) == Instr::Unused {
            unused += 1;
        }
        match extended_instr(op) {
            CbInstr::Bit(n, _) | CbInstr::Res(n, _) | CbInstr::SetBit(n, _) => assert!(n < 8),
            _ => assert!(op < 0x40),
        }
    }
    assert_eq!(unused, 11);
}
