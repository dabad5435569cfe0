//! Laws of the instruction set, proved of `semantics::step`.

use crate::bits::{bit_at, flags_byte, lemma_flags_byte, weight};
use crate::isa::{
    base_cycles, decode, decode_cb, direct, extended_cycles, indirect, r8, CbInstr, Cond, Instr,
    Operand, PREFIX,
};
use crate::regset::{
    lemma_half_is_a_byte, lemma_read_written, lemma_write_keeps_other_halves,
    lemma_write_keeps_other_slots, wrap16, wrap8, Reg,
};
use crate::semantics;
use crate::semantics::{step, Machine, INTERRUPT_ENABLE, INTERRUPT_REQUEST};
use vstd::prelude::*;

verus! {

/// The resolution of an operand moves the program counter over the bytes
/// that the operand takes, one or two or none, and writes no memory; it
/// changes a register only where the operand asks for it.
pub proof fn lemma_operand_width(m: Machine, arg: Operand)
    ensures
        semantics::fetch(m, arg).1.pc == wrap16(m.pc + arg.width()),
        semantics::fetch(m, arg).1.mem == m.mem,
        semantics::fetch(m, arg).1.sp == m.sp,
        !(arg matches Operand::Reg { inc, dec, .. } && (inc || dec)) ==> semantics::fetch(
            m,
            arg,
        ).1.regs == m.regs,
{
}

/// A relative offset is sign-extended: up to 127 it counts forwards, from
/// 128 on backwards from 256.
pub proof fn lemma_offset_is_signed(m: Machine)
    ensures
        semantics::fetch(m, Operand::R8).0 == (if m.imm8() < 128 {
            m.imm8() as int
        } else {
            0x10000 - (256 - m.imm8())
        }),
        wrap16(m.pc + semantics::fetch(m, Operand::R8).0) == (if m.imm8() < 128 {
            wrap16(m.pc + m.imm8())
        } else {
            wrap16(m.pc - (256 - m.imm8()))
        }),
{
}

/// A jump, a relative jump or a call whose condition fails passes its
/// operand and does nothing else; a return whose condition fails passes its
/// opcode and leaves the stack.
pub proof fn lemma_branch_not_taken(m: Machine, c: Cond, target: Operand)
    requires
        !m.stopped,
        !semantics::holds(m, c),
        !(target is Reg),
    ensures
        ({
            let op = m.imm8();
            let passed = Machine {
                pc: wrap16(m.pc + 1 + target.width()),
                cycles: base_cycles(op),
                ..m
            };
            &&& decode(op) == Instr::Jp(c, target) ==> step(m) == passed
            &&& decode(op) == Instr::Jr(c, target) ==> step(m) == passed
            &&& decode(op) == Instr::Call(c, target) ==> step(m) == passed
            &&& decode(op) == Instr::Ret(c) ==> step(m) == Machine {
                pc: wrap16(m.pc + 1),
                ..passed
            }
        }),
{
    reveal(semantics::jp);
    reveal(semantics::jr);
    reveal(semantics::call);
    reveal(semantics::ret);
    lemma_operand_width(m.skip(1), target);
}

/// `PUSH` of a register pair and then `POP` into the same pair: the pair,
/// the stack pointer and every other register are as before.
pub proof fn lemma_push_pop(m: Machine, pair: Reg)
    requires
        m.wf(),
        !m.stopped,
        pair.is_wide(),
        decode(m.imm8()) == Instr::Push(pair),
        decode(step(m).imm8()) == Instr::Pop(pair),
    ensures
        step(step(m)).reg(pair) == m.reg(pair),
        step(step(m)).sp == m.sp,
        step(step(m)).pc == wrap16(m.pc + 2),
        step(m).sp == wrap16(m.sp - 2),
        step(m).byte(wrap16(m.sp - 1)) == m.reg(pair) / 256,
        step(m).byte(wrap16(m.sp - 2)) == m.reg(pair) % 256,
        forall|other: Reg| other.slot() != pair.slot() ==> step(step(m)).reg(other) == m.reg(other),
{
    reveal(semantics::push);
    reveal(semantics::pop);
    let value = m.reg(pair);
    assert(step(m).top16() == value);
    assert(step(step(m)).regs == m.regs.write(pair, value));
    lemma_read_written(m.regs, pair, value);
    assert forall|other: Reg| other.slot() != pair.slot() implies step(step(m)).reg(other)
        == m.reg(other) by {
        lemma_write_keeps_other_slots(m.regs, pair, other, value);
    }
}

/// The opcodes of the loads of a 16-bit immediate.
pub proof fn lemma_load_immediate16_opcodes()
    ensures
        decode(0x01) == Instr::Ld(direct(Reg::BC), Operand::D16),
        decode(0x11) == Instr::Ld(direct(Reg::DE), Operand::D16),
        decode(0x21) == Instr::Ld(direct(Reg::HL), Operand::D16),
        decode(0x31) == Instr::Ld(Operand::SP, Operand::D16),
{
}

/// A load of a 16-bit immediate into a register pair: the pair takes the two
/// bytes after the opcode, low byte first, and the program counter moves on
/// by three. Nothing else changes.
pub proof fn lemma_load_immediate16(m: Machine, r: Reg)
    requires
        !m.stopped,
        r.is_wide(),
        decode(m.imm8()) == Instr::Ld(direct(r), Operand::D16),
    ensures
        step(m).reg(r) == m.byte(wrap16(m.pc + 1)) + 256 * m.byte(wrap16(m.pc + 2)),
        step(m).pc == wrap16(m.pc + 3),
        step(m).sp == m.sp,
        step(m).mem == m.mem,
        forall|other: Reg| other.slot() != r.slot() ==> step(m).reg(other) == m.reg(other),
{
    reveal(semantics::ld);
    let value = m.skip(1).imm16();
    assert(step(m).regs == m.regs.write(r, value));
    lemma_read_written(m.regs, r, value);
    assert forall|other: Reg| other.slot() != r.slot() implies step(m).reg(other) == m.reg(
        other,
    ) by {
        lemma_write_keeps_other_slots(m.regs, r, other, value);
    }
}

/// A load of a 16-bit immediate into the stack pointer.
pub proof fn lemma_load_immediate16_sp(m: Machine)
    requires
        !m.stopped,
        decode(m.imm8()) == Instr::Ld(Operand::SP, Operand::D16),
    ensures
        step(m).sp == m.byte(wrap16(m.pc + 1)) + 256 * m.byte(wrap16(m.pc + 2)),
        step(m).pc == wrap16(m.pc + 3),
        step(m).regs == m.regs,
        step(m).mem == m.mem,
{
    reveal(semantics::ld);
}

/// The opcodes of the stores of the accumulator through a register pair.
pub proof fn lemma_store_accumulator_opcodes()
    ensures
        decode(0x02) == Instr::Ld(indirect(Reg::BC), direct(Reg::A)),
        decode(0x12) == Instr::Ld(indirect(Reg::DE), direct(Reg::A)),
        decode(0x22) == Instr::Ld(
            Operand::Reg { name: Reg::HL, inc: true, dec: false, addr: true },
            direct(Reg::A),
        ),
        decode(0x32) == Instr::Ld(
            Operand::Reg { name: Reg::HL, inc: false, dec: true, addr: true },
            direct(Reg::A),
        ),
{
}

/// A store of the accumulator through a register pair: the memory cell at
/// the address that the pair held takes the accumulator, the pair moves by
/// one where the instruction says so, and the program counter moves on by
/// one.
pub proof fn lemma_store_accumulator(m: Machine, pair: Reg, inc: bool, dec: bool)
    requires
        m.wf(),
        !m.stopped,
        pair.is_wide(),
        pair != Reg::AF,
        !(inc && dec),
        decode(m.imm8()) == Instr::Ld(
            Operand::Reg { name: pair, inc, dec, addr: true },
            direct(Reg::A),
        ),
    ensures
        step(m).mem == m.mem.update(m.reg(pair) as int, m.a()),
        step(m).byte(m.reg(pair)) == m.a(),
        step(m).reg(pair) == (if inc {
            wrap16(m.reg(pair) + 1)
        } else if dec {
            wrap16(m.reg(pair) - 1)
        } else {
            m.reg(pair)
        }),
        step(m).pc == wrap16(m.pc + 1),
        step(m).sp == m.sp,
        step(m).reg(Reg::AF) == m.reg(Reg::AF),
{
    reveal(semantics::ld);
    lemma_half_is_a_byte(m.regs, Reg::A);
    let at = m.reg(pair);
    let stored = m.skip(1).store(at, m.a());
    let up = wrap16(at + 1);
    let down = wrap16(at - 1);
    lemma_read_written(m.regs, pair, up);
    lemma_read_written(m.regs, pair, down);
    lemma_write_keeps_other_slots(m.regs, pair, Reg::AF, up);
    lemma_write_keeps_other_slots(m.regs, pair, Reg::AF, down);
    assert(step(m).mem == stored.mem);
    if inc {
        assert(step(m).regs == m.regs.write(pair, up));
    } else if dec {
        assert(step(m).regs == m.regs.write(pair, down));
    } else {
        assert(step(m).regs == m.regs);
    }
}

/// `INC` of an 8-bit register: the register goes up by one and wraps from
/// 255 to 0; Zero is set exactly on that wrap, HalfCarry exactly when the
/// low nibble was 15, Subtract is cleared and Carry stays.
pub proof fn lemma_inc_register(m: Machine, r: Reg)
    requires
        !m.stopped,
        !r.is_wide(),
        r != Reg::F,
        decode(m.imm8()) == Instr::Inc(direct(r)),
    ensures
        step(m).reg(r) == wrap8(m.reg(r) + 1),
        step(m).zero() == (m.reg(r) == 255),
        step(m).half_carry() == (m.reg(r) % 16 == 15),
        !step(m).subtract(),
        step(m).carry() == m.carry(),
        step(m).pc == wrap16(m.pc + 1),
{
    reveal(semantics::inc);
    lemma_half_is_a_byte(m.regs, r);
    lemma_half_is_a_byte(m.regs, Reg::F);
    let x = m.reg(r) as u8;
    let value = wrap8(x + 1) as u16;
    let f = semantics::inc_flags(m.f(), x);
    let written = m.regs.write(r, value);
    assert(step(m).regs == written.write(Reg::F, f as u16));
    lemma_read_written(m.regs, r, value);
    lemma_read_written(written, Reg::F, f as u16);
    lemma_write_keeps_other_halves(written, Reg::F, r, f as u16);
    assert(step(m).f() == f);
    lemma_flags_byte(m.f(), x == 255, false, x % 16 == 15, bit_at(m.f(), 3));
}

/// `DEC` of an 8-bit register: the register goes down by one and wraps from
/// 0 to 255; Zero is set exactly when the result is 0, HalfCarry exactly
/// when the low nibble was 0, Subtract is set and Carry stays.
pub proof fn lemma_dec_register(m: Machine, r: Reg)
    requires
        !m.stopped,
        !r.is_wide(),
        r != Reg::F,
        decode(m.imm8()) == Instr::Dec(direct(r)),
    ensures
        step(m).reg(r) == wrap8(m.reg(r) - 1),
        step(m).zero() == (m.reg(r) == 1),
        step(m).half_carry() == (m.reg(r) % 16 == 0),
        step(m).subtract(),
        step(m).carry() == m.carry(),
        step(m).pc == wrap16(m.pc + 1),
{
    reveal(semantics::dec);
    lemma_half_is_a_byte(m.regs, r);
    lemma_half_is_a_byte(m.regs, Reg::F);
    let x = m.reg(r) as u8;
    let value = wrap8(x - 1) as u16;
    let f = semantics::dec_flags(m.f(), x);
    let written = m.regs.write(r, value);
    assert(step(m).regs == written.write(Reg::F, f as u16));
    lemma_read_written(m.regs, r, value);
    lemma_read_written(written, Reg::F, f as u16);
    lemma_write_keeps_other_halves(written, Reg::F, r, f as u16);
    assert(step(m).f() == f);
    lemma_flags_byte(m.f(), x == 1, true, x % 16 == 0, bit_at(m.f(), 3));
}

/// `INC (HL)` and `DEC (HL)`: the memory cell that `HL` points to moves by
/// one and wraps; the flags are those of the same step on a register.
pub proof fn lemma_inc_dec_memory(m: Machine)
    requires
        m.wf(),
        !m.stopped,
    ensures
        decode(m.imm8()) == Instr::Inc(indirect(Reg::HL)) ==> {
            let x = m.byte(m.reg(Reg::HL));
            &&& step(m).byte(m.reg(Reg::HL)) == wrap8(x + 1)
            &&& step(m).f() == semantics::inc_flags(m.f(), x)
            &&& step(m).zero() == (x == 255)
            &&& step(m).half_carry() == (x % 16 == 15)
            &&& !step(m).subtract()
            &&& step(m).carry() == m.carry()
        },
        decode(m.imm8()) == Instr::Dec(indirect(Reg::HL)) ==> {
            let x = m.byte(m.reg(Reg::HL));
            &&& step(m).byte(m.reg(Reg::HL)) == wrap8(x - 1)
            &&& step(m).f() == semantics::dec_flags(m.f(), x)
            &&& step(m).zero() == (x == 1)
            &&& step(m).half_carry() == (x % 16 == 0)
            &&& step(m).subtract()
            &&& step(m).carry() == m.carry()
        },
{
    reveal(semantics::inc);
    reveal(semantics::dec);
    lemma_half_is_a_byte(m.regs, Reg::F);
    let x = m.byte(m.reg(Reg::HL));
    lemma_read_written(m.regs, Reg::F, semantics::inc_flags(m.f(), x) as u16);
    lemma_read_written(m.regs, Reg::F, semantics::dec_flags(m.f(), x) as u16);
    lemma_flags_byte(m.f(), x == 255, false, x % 16 == 15, bit_at(m.f(), 3));
    lemma_flags_byte(m.f(), x == 1, true, x % 16 == 0, bit_at(m.f(), 3));
}

/// `INC` and `DEC` of a 16-bit register wrap silently and touch no flag.
pub proof fn lemma_inc_dec_wide(m: Machine, r: Reg)
    requires
        !m.stopped,
        r.is_wide(),
        r != Reg::AF,
    ensures
        decode(m.imm8()) == Instr::Inc(direct(r)) ==> step(m).reg(r) == wrap16(m.reg(r) + 1)
            && step(m).f() == m.f(),
        decode(m.imm8()) == Instr::Dec(direct(r)) ==> step(m).reg(r) == wrap16(m.reg(r) - 1)
            && step(m).f() == m.f(),
{
    reveal(semantics::inc);
    reveal(semantics::dec);
    let up = wrap16(m.reg(r) + 1);
    let down = wrap16(m.reg(r) - 1);
    lemma_read_written(m.regs, r, up);
    lemma_read_written(m.regs, r, down);
    lemma_write_keeps_other_slots(m.regs, r, Reg::F, up);
    lemma_write_keeps_other_slots(m.regs, r, Reg::F, down);
}

/// `XOR A,A`: the accumulator is 0 afterwards and of the flags byte only
/// Zero is set, whatever the flags were.
pub proof fn lemma_xor_self(m: Machine)
    requires
        !m.stopped,
        decode(m.imm8()) == Instr::Xor(direct(Reg::A)),
    ensures
        step(m).a() == 0,
        step(m).f() == 0x80,
        step(m).zero(),
        !step(m).subtract(),
        !step(m).half_carry(),
        !step(m).carry(),
        step(m).pc == wrap16(m.pc + 1),
{
    reveal(semantics::alu);
    lemma_half_is_a_byte(m.regs, Reg::A);
    let a = m.a();
    assert(a ^ a == 0) by (bit_vector);
    let cleared = m.regs.write(Reg::A, 0);
    assert(step(m).regs == cleared.write(Reg::F, 128));
    lemma_read_written(m.regs, Reg::A, 0);
    lemma_read_written(cleared, Reg::F, 128);
    lemma_write_keeps_other_halves(cleared, Reg::F, Reg::A, 128);
    assert(step(m).f() == 128);
}

/// `BIT b,r` and `BIT b,(HL)`, the second quarter of the extended table:
/// Zero is set exactly when bit `b` of the operand, counted from the least
/// significant, is clear; HalfCarry is set, Subtract is cleared, Carry
/// stays. The instruction takes two bytes and changes no memory.
pub proof fn lemma_bit_test(m: Machine)
    requires
        !m.stopped,
        m.imm8() == PREFIX,
        0x40 <= m.byte(wrap16(m.pc + 1)) < 0x80,
    ensures
        ({
            let op = m.byte(wrap16(m.pc + 1));
            let b = (op / 8) % 8;
            let src = r8(op as int % 8);
            &&& decode_cb(op) == CbInstr::Bit(b, src)
            &&& step(m).zero() == !bit_at(semantics::target_byte(m, src).unwrap(), 7 - b)
            &&& step(m).half_carry()
            &&& !step(m).subtract()
            &&& step(m).carry() == m.carry()
            &&& step(m).pc == wrap16(m.pc + 2)
            &&& step(m).mem == m.mem
        }),
{
    reveal(semantics::prefix);
    reveal(semantics::bit);
    lemma_half_is_a_byte(m.regs, Reg::F);
    let op = m.byte(wrap16(m.pc + 1));
    let b = (op / 8) % 8;
    let src = r8(op as int % 8);
    let x = semantics::target_byte(m, src).unwrap();
    let f = flags_byte(m.f(), !bit_at(x, 7 - b), false, true, bit_at(m.f(), 3));
    let at = Machine { cycles: extended_cycles(op), ..m.skip(1) };
    assert(semantics::fetch(at.skip(1), src).1 == at.skip(1));
    assert(wrap8(semantics::fetch(at.skip(1), src).0 as int) == x);
    assert(step(m) == at.skip(1).set_f(f));
    lemma_read_written(m.regs, Reg::F, f as u16);
    assert(step(m).f() == f);
    lemma_flags_byte(m.f(), !bit_at(x, 7 - b), false, true, bit_at(m.f(), 3));
}

/// `CALL a16` and then `RET` at the place called: the program counter is at
/// the instruction after the call and the stack pointer where it was.
#[verifier::rlimit(40)]
pub proof fn lemma_call_ret(m: Machine)
    requires
        m.wf(),
        !m.stopped,
        decode(m.imm8()) == Instr::Call(Cond::Always, Operand::D16),
        decode(step(m).imm8()) == Instr::Ret(Cond::Always),
    ensures
        step(m).pc == m.byte(wrap16(m.pc + 1)) + 256 * m.byte(wrap16(m.pc + 2)),
        step(m).sp == wrap16(m.sp - 2),
        step(step(m)).pc == wrap16(m.pc + 3),
        step(step(m)).sp == m.sp,
{
    reveal(semantics::call);
    reveal(semantics::ret);
}

/// No instruction costs more than 24 clock ticks, and each cost is a
/// multiple of four.
pub proof fn lemma_cycle_costs(op: u8)
    ensures
        base_cycles(op) <= 24,
        base_cycles(op) % 4 == 0,
        extended_cycles(op) == 8 || extended_cycles(op) == 16,
{
}

/// A stopped processor runs on exactly when some interrupt source has both
/// its enable bit and its request bit set.
pub proof fn lemma_wake_condition(m: Machine)
    ensures
        semantics::wakes(m) == exists|pos: int|
            0 <= pos < 8 && bit_at(m.mem[INTERRUPT_ENABLE as int], pos) && bit_at(
                m.mem[INTERRUPT_REQUEST as int],
                pos,
            ),
        m.stopped && !semantics::wakes(m) ==> step(m) == m,
        m.stopped && semantics::wakes(m) ==> step(m) == semantics::run(
            Machine { stopped: false, ..m },
        ),
{
    let a = m.mem[INTERRUPT_ENABLE as int];
    let b = m.mem[INTERRUPT_REQUEST as int];
    assert((a & b != 0) == (((a / 128) % 2 == 1 && (b / 128) % 2 == 1) || ((a / 64) % 2 == 1 && (b
        / 64) % 2 == 1) || ((a / 32) % 2 == 1 && (b / 32) % 2 == 1) || ((a / 16) % 2 == 1 && (b
        / 16) % 2 == 1) || ((a / 8) % 2 == 1 && (b / 8) % 2 == 1) || ((a / 4) % 2 == 1 && (b / 4)
        % 2 == 1) || ((a / 2) % 2 == 1 && (b / 2) % 2 == 1) || ((a / 1) % 2 == 1 && (b / 1) % 2
        == 1))) by (bit_vector);
    if semantics::wakes(m) {
        let pos: int = if bit_at(a, 0) && bit_at(b, 0) {
            0
        } else if bit_at(a, 1) && bit_at(b, 1) {
            1
        } else if bit_at(a, 2) && bit_at(b, 2) {
            2
        } else if bit_at(a, 3) && bit_at(b, 3) {
            3
        } else if bit_at(a, 4) && bit_at(b, 4) {
            4
        } else if bit_at(a, 5) && bit_at(b, 5) {
            5
        } else if bit_at(a, 6) && bit_at(b, 6) {
            6
        } else {
            7
        };
        assert(0 <= pos < 8 && bit_at(a, pos) && bit_at(b, pos));
    } else {
        assert forall|pos: int| 0 <= pos < 8 implies !(#[trigger] bit_at(a, pos) && bit_at(
            b,
            pos,
        )) by {
            assert(weight(pos) == 128 || weight(pos) == 64 || weight(pos) == 32 || weight(pos) == 16
                || weight(pos) == 8 || weight(pos) == 4 || weight(pos) == 2 || weight(pos) == 1);
        }
    }
}

/// Every step keeps the memory at its 64 KiB.
pub proof fn lemma_step_wf(m: Machine)
    requires
        m.wf(),
    ensures
        step(m).wf(),
{
    let n = if m.stopped {
        Machine { stopped: false, ..m }
    } else {
        m
    };
    let op = n.imm8();
    lemma_exec_wf(Machine { cycles: base_cycles(op), ..n }, decode(op));
}

/// Loads and stack moves keep the memory at its 64 KiB.
proof fn lemma_moves_wf(m: Machine, instr: Instr)
    requires
        m.wf(),
        instr is Ld || instr is Ldh || instr is LdHlSp || instr is Push || instr is Pop,
    ensures
        semantics::exec(m, instr).wf(),
{
    reveal(semantics::ld);
    reveal(semantics::ldh);
    reveal(semantics::ld_hl_sp);
    reveal(semantics::push);
    reveal(semantics::pop);
}

/// Arithmetic keeps the memory at its 64 KiB.
proof fn lemma_arithmetic_wf(m: Machine, instr: Instr)
    requires
        m.wf(),
        instr is Inc || instr is Dec || instr is Add || instr is Adc || instr is Sub
            || instr is Sbc || instr is And || instr is Or || instr is Xor || instr is Cp
            || instr is AddHl || instr is AddSp,
    ensures
        semantics::exec(m, instr).wf(),
{
    reveal(semantics::inc);
    reveal(semantics::dec);
    reveal(semantics::alu);
    reveal(semantics::add_hl);
    reveal(semantics::add_sp);
}

/// Jumps, calls and returns keep the memory at its 64 KiB.
proof fn lemma_control_wf(m: Machine, instr: Instr)
    requires
        m.wf(),
        instr is Jp || instr is Jr || instr is Call || instr is Ret || instr is Reti
            || instr is Rst,
    ensures
        semantics::exec(m, instr).wf(),
{
    reveal(semantics::jp);
    reveal(semantics::jr);
    reveal(semantics::call);
    reveal(semantics::ret);
    reveal(semantics::rst);
}

/// The instructions of the extended table keep the memory at its 64 KiB.
proof fn lemma_prefix_wf(m: Machine)
    requires
        m.wf(),
    ensures
        semantics::prefix(m).wf(),
{
    reveal(semantics::prefix);
    reveal(semantics::shift);
    reveal(semantics::bit);
    reveal(semantics::assign);
}

/// Every instruction keeps the memory at its 64 KiB.
pub proof fn lemma_exec_wf(m: Machine, instr: Instr)
    requires
        m.wf(),
    ensures
        semantics::exec(m, instr).wf(),
{
    match instr {
        Instr::Ld(_, _) | Instr::Ldh(_, _) | Instr::LdHlSp | Instr::Push(_) | Instr::Pop(_) => {
            lemma_moves_wf(m, instr);
        },
        Instr::Inc(_) | Instr::Dec(_) | Instr::Add(_) | Instr::Adc(_) | Instr::Sub(_)
        | Instr::Sbc(_) | Instr::And(_) | Instr::Or(_) | Instr::Xor(_) | Instr::Cp(_)
        | Instr::AddHl(_) | Instr::AddSp => {
            lemma_arithmetic_wf(m, instr);
        },
        Instr::Jp(_, _) | Instr::Jr(_, _) | Instr::Call(_, _) | Instr::Ret(_) | Instr::Reti
        | Instr::Rst(_) => {
            lemma_control_wf(m, instr);
        },
        Instr::Prefix => {
            lemma_prefix_wf(m);
        },
        _ => {
            reveal(semantics::rotate_a);
            reveal(semantics::daa);
            reveal(semantics::cpl);
            reveal(semantics::scf);
            reveal(semantics::ccf);
        },
    }
}

} // verus!
