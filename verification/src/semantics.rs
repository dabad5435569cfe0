//! What the processor does, as functions on the state of the machine.
//!
//! Every function that stands for an instruction takes the machine with the
//! program counter at the instruction's opcode and gives the machine after
//! the instruction; the cost of the instruction is recorded by `run`.

use crate::bits::{bit_at, flags_byte, with_bit};
use crate::isa::{
    base_cycles, decode, decode_cb, extended_cycles, CbInstr, Cond, GBData, Instr, Operand,
};
use crate::regset::{wrap16, wrap8, Reg, RegFile};
use vstd::prelude::*;

verus! {

/// Address of the interrupt-enable byte.
pub const INTERRUPT_ENABLE: usize = 0xFFFF;

/// Address of the interrupt-request byte.
pub const INTERRUPT_REQUEST: usize = 0xFF0F;

/// Address of the scanline counter.
pub const SCANLINE: usize = 0xFF44;

/// The state of the machine.
pub struct Machine {
    pub regs: RegFile,
    pub sp: u16,
    pub pc: u16,
    pub mem: Seq<u8>,
    /// Set by `STOP` and `HALT`: no instruction is fetched while it is set.
    pub stopped: bool,
    /// The master switch of the interrupts, which `EI`, `DI` and `RETI` turn.
    /// `EI` turns it at once, not one instruction late as the hardware
    /// does; the processor itself never serves an interrupt.
    pub interrupts: bool,
    /// The cost of the instruction executed last.
    pub cycles: nat,
}

/// The byte `b` read as a signed number.
pub open spec fn signed(b: u8) -> i8 {
    if b < 128 {
        b as i8
    } else {
        (b - 256) as i8
    }
}

/// The signed number `v` as 16 bits in two's complement.
pub open spec fn sign_extend(v: i8) -> u16 {
    if v >= 0 {
        v as u16
    } else {
        (v + 0x10000) as u16
    }
}

impl Machine {
    /// The memory is the full 64 KiB.
    pub open spec fn wf(self) -> bool {
        self.mem.len() == 0x10000
    }

    /// The byte at `addr`.
    pub open spec fn byte(self, addr: u16) -> u8 {
        self.mem[addr as int]
    }

    /// The byte at the program counter.
    pub open spec fn imm8(self) -> u8 {
        self.byte(self.pc)
    }

    /// The two bytes at the program counter, low byte first.
    pub open spec fn imm16(self) -> u16 {
        (self.byte(self.pc) + 256 * self.byte(wrap16(self.pc + 1))) as u16
    }

    /// The machine with the program counter moved on by `n`.
    pub open spec fn skip(self, n: int) -> Machine {
        Machine { pc: wrap16(self.pc + n), ..self }
    }

    /// The machine with `value` at `addr`.
    pub open spec fn store(self, addr: u16, value: u8) -> Machine {
        Machine { mem: self.mem.update(addr as int, value), ..self }
    }

    /// The value of a register.
    pub open spec fn reg(self, r: Reg) -> u16 {
        self.regs.read(r)
    }

    /// The machine after a write to a register.
    pub open spec fn set_reg(self, r: Reg, value: u16) -> Machine {
        Machine { regs: self.regs.write(r, value), ..self }
    }

    /// The machine after a register went up by one.
    pub open spec fn inc_reg(self, r: Reg) -> Machine {
        Machine { regs: self.regs.inc(r), ..self }
    }

    /// The machine after a register went down by one.
    pub open spec fn dec_reg(self, r: Reg) -> Machine {
        Machine { regs: self.regs.dec(r), ..self }
    }

    /// The accumulator.
    pub open spec fn a(self) -> u8 {
        self.reg(Reg::A) as u8
    }

    /// The flags byte.
    pub open spec fn f(self) -> u8 {
        self.reg(Reg::F) as u8
    }

    /// The machine with `value` in the accumulator.
    pub open spec fn set_a(self, value: u8) -> Machine {
        self.set_reg(Reg::A, value as u16)
    }

    /// The machine with `value` as its flags byte.
    pub open spec fn set_f(self, value: u8) -> Machine {
        self.set_reg(Reg::F, value as u16)
    }

    /// The Zero flag.
    pub open spec fn zero(self) -> bool {
        bit_at(self.f(), 0)
    }

    /// The Subtract flag.
    pub open spec fn subtract(self) -> bool {
        bit_at(self.f(), 1)
    }

    /// The HalfCarry flag.
    pub open spec fn half_carry(self) -> bool {
        bit_at(self.f(), 2)
    }

    /// The Carry flag.
    pub open spec fn carry(self) -> bool {
        bit_at(self.f(), 3)
    }

    /// The machine after `value` was pushed: the stack pointer goes down by
    /// one for each byte, and the high byte is stored first.
    pub open spec fn push16(self, value: u16) -> Machine {
        let high = wrap16(self.sp - 1);
        let low = wrap16(self.sp - 2);
        Machine {
            sp: low,
            mem: self.mem.update(high as int, (value / 256) as u8).update(
                low as int,
                (value % 256) as u8,
            ),
            ..self
        }
    }

    /// The 16-bit value on top of the stack, low byte first.
    pub open spec fn top16(self) -> u16 {
        (self.byte(self.sp) + 256 * self.byte(wrap16(self.sp + 1))) as u16
    }

    /// The machine after the top of the stack was dropped.
    pub open spec fn drop16(self) -> Machine {
        Machine { sp: wrap16(self.sp + 2), ..self }
    }
}

/// The operand after its immediate bytes were read at the program counter,
/// which stays where it is.
pub open spec fn parse(m: Machine, arg: Operand) -> GBData {
    match arg {
        Operand::D16 => GBData::D16(m.imm16()),
        Operand::D8 => GBData::D8(m.imm8()),
        Operand::R8 => GBData::R8(signed(m.imm8())),
        Operand::A8 => GBData::ADDRESS { addr: (0xFF00 + m.imm8()) as u16, size: 1 },
        Operand::A16 => GBData::ADDRESS { addr: m.imm16(), size: 2 },
        Operand::SP => GBData::SP,
        Operand::PC => GBData::PC,
        Operand::Reg { name, inc, dec, addr } => GBData::REG { name, inc, dec, addr },
    }
}

/// The value of an operand, and the machine after the operand was used: the
/// program counter has passed its immediate bytes, and a register with
/// `inc` or `dec` has moved by one after it was read.
pub open spec fn resolve(m: Machine, data: GBData) -> (u16, Machine) {
    match data {
        GBData::R8(v) => (sign_extend(v), m.skip(1)),
        GBData::D8(v) => (v as u16, m.skip(1)),
        GBData::D16(v) => (v, m.skip(2)),
        GBData::REG { name, inc, dec, addr } => {
            let r = m.reg(name);
            let value = if addr {
                m.byte(r) as u16
            } else {
                r
            };
            let m1 = if inc {
                m.inc_reg(name)
            } else {
                m
            };
            let m2 = if dec {
                m1.dec_reg(name)
            } else {
                m1
            };
            (value, m2)
        },
        GBData::ADDRESS { addr, size } => (m.byte(addr) as u16, m.skip(size as int)),
        GBData::SP => (m.sp, m),
        GBData::PC => (m.pc, m),
    }
}

/// Reads the operand at the program counter and resolves it.
pub open spec fn fetch(m: Machine, arg: Operand) -> (u16, Machine) {
    resolve(m, parse(m, arg))
}

/// Load: the value of `src` goes to the register, the memory cell or the
/// stack pointer that `dst` names. A memory cell takes the low byte.
#[verifier::opaque]
pub open spec fn ld(m: Machine, dst: Operand, src: Operand) -> Machine {
    let m = m.skip(1);
    match parse(m, dst) {
        GBData::SP => {
            let (v, m1) = fetch(m, src);
            Machine { sp: v, ..m1 }
        },
        GBData::REG { name, inc, dec, addr } => {
            let (v, m1) = fetch(m, src);
            let m2 = if addr {
                m1.store(m1.reg(name), wrap8(v as int))
            } else {
                m1.set_reg(name, v)
            };
            let m3 = if inc {
                m2.inc_reg(name)
            } else {
                m2
            };
            if dec {
                m3.dec_reg(name)
            } else {
                m3
            }
        },
        GBData::ADDRESS { addr, size } => {
            let m1 = m.skip(size as int);
            let (v, m2) = fetch(m1, src);
            m2.store(addr, wrap8(v as int))
        },
        _ => m,
    }
}

/// Load to or from the high page.
#[verifier::opaque]
pub open spec fn ldh(m: Machine, dst: Operand, src: Operand) -> Machine {
    let m = m.skip(1);
    match parse(m, dst) {
        GBData::ADDRESS { addr, size } => {
            let m1 = m.skip(size as int);
            let (v, m2) = fetch(m1, src);
            m2.store(addr, wrap8(v as int))
        },
        GBData::REG { name, inc, dec, addr } => {
            let (v, m1) = fetch(m, src);
            m1.set_reg(name, v)
        },
        _ => m,
    }
}

/// The flags after an addition of the signed offset byte `e` to the stack
/// pointer: Zero and Subtract clear, HalfCarry and Carry from the unsigned
/// addition of `e` to the low byte of the stack pointer.
pub open spec fn offset_flags(f: u8, sp: u16, e: u8) -> u8 {
    flags_byte(f, false, false, sp % 16 + e % 16 >= 16, sp % 256 + e >= 256)
}

/// `LD HL,SP+r8`.
#[verifier::opaque]
pub open spec fn ld_hl_sp(m: Machine) -> Machine {
    let m = m.skip(1);
    let e = m.imm8();
    let m1 = m.skip(1);
    m1.set_reg(Reg::HL, wrap16(m1.sp + sign_extend(signed(e)))).set_f(
        offset_flags(m1.f(), m1.sp, e),
    )
}

/// `ADD SP,r8`.
#[verifier::opaque]
pub open spec fn add_sp(m: Machine) -> Machine {
    let m = m.skip(1);
    let e = m.imm8();
    let m1 = m.skip(1);
    Machine { sp: wrap16(m1.sp + sign_extend(signed(e))), ..m1 }.set_f(
        offset_flags(m1.f(), m1.sp, e),
    )
}

/// `PUSH`: a register pair goes onto the stack, as a return address does.
#[verifier::opaque]
pub open spec fn push(m: Machine, r: Reg) -> Machine {
    let m = m.skip(1);
    m.push16(m.reg(r))
}

/// `POP`: a register pair takes the top of the stack.
#[verifier::opaque]
pub open spec fn pop(m: Machine, r: Reg) -> Machine {
    let m = m.skip(1);
    m.set_reg(r, m.top16()).drop16()
}

/// The flags after the byte `x` went up by one: Carry stays.
pub open spec fn inc_flags(f: u8, x: u8) -> u8 {
    flags_byte(f, x == 255, false, x % 16 == 15, bit_at(f, 3))
}

/// The flags after the byte `x` went down by one: Carry stays.
pub open spec fn dec_flags(f: u8, x: u8) -> u8 {
    flags_byte(f, x == 1, true, x % 16 == 0, bit_at(f, 3))
}

/// `INC`: a byte in a register or in memory goes up by one and sets the
/// flags; a 16-bit register or the stack pointer goes up by one and sets
/// none.
#[verifier::opaque]
pub open spec fn inc(m: Machine, target: Operand) -> Machine {
    let m = m.skip(1);
    match parse(m, target) {
        GBData::REG { name, inc, dec, addr } => {
            if addr {
                let at = m.reg(name);
                let x = m.byte(at);
                m.store(at, wrap8(x + 1)).set_f(inc_flags(m.f(), x))
            } else if name.is_wide() {
                m.inc_reg(name)
            } else {
                let x = m.reg(name) as u8;
                m.set_reg(name, wrap8(x + 1) as u16).set_f(inc_flags(m.f(), x))
            }
        },
        GBData::SP => Machine { sp: wrap16(m.sp + 1), ..m },
        _ => m,
    }
}

/// `DEC`: as `INC`, downwards.
#[verifier::opaque]
pub open spec fn dec(m: Machine, target: Operand) -> Machine {
    let m = m.skip(1);
    match parse(m, target) {
        GBData::REG { name, inc, dec, addr } => {
            if addr {
                let at = m.reg(name);
                let x = m.byte(at);
                m.store(at, wrap8(x - 1)).set_f(dec_flags(m.f(), x))
            } else if name.is_wide() {
                m.dec_reg(name)
            } else {
                let x = m.reg(name) as u8;
                m.set_reg(name, wrap8(x - 1) as u16).set_f(dec_flags(m.f(), x))
            }
        },
        GBData::SP => Machine { sp: wrap16(m.sp - 1), ..m },
        _ => m,
    }
}

/// What an operation on the accumulator computes: the new accumulator and
/// the new flags byte.
pub struct AluResult {
    pub a: u8,
    pub f: u8,
}

/// Addition with a carry coming in: Zero tells whether the result is zero,
/// Subtract is cleared, HalfCarry is the carry out of bit 3 and Carry the
/// carry out of bit 7.
pub open spec fn add8(a: u8, f: u8, v: u8, carry_in: bool) -> AluResult {
    let c: int = if carry_in {
        1
    } else {
        0
    };
    let r = wrap8(a + v + c);
    AluResult { a: r, f: flags_byte(f, r == 0, false, a % 16 + v % 16 + c >= 16, a + v + c >= 256) }
}

/// Subtraction with a borrow coming in: Zero tells whether the result is
/// zero, Subtract is set, HalfCarry is the borrow into bit 3 and Carry the
/// borrow into bit 7.
pub open spec fn sub8(a: u8, f: u8, v: u8, carry_in: bool) -> AluResult {
    let c: int = if carry_in {
        1
    } else {
        0
    };
    let r = wrap8(a - v - c);
    AluResult { a: r, f: flags_byte(f, r == 0, true, a % 16 < v % 16 + c, a < v + c) }
}

/// Bitwise and: HalfCarry is set, Subtract and Carry are cleared.
pub open spec fn and8(a: u8, f: u8, v: u8) -> AluResult {
    AluResult { a: a & v, f: flags_byte(f, a & v == 0, false, true, false) }
}

/// Bitwise or: Subtract, HalfCarry and Carry are cleared.
pub open spec fn or8(a: u8, f: u8, v: u8) -> AluResult {
    AluResult { a: a | v, f: flags_byte(f, a | v == 0, false, false, false) }
}

/// Exclusive or: of the flags byte only Zero can be set afterwards.
pub open spec fn xor8(a: u8, v: u8) -> AluResult {
    AluResult {
        a: a ^ v,
        f: if a ^ v == 0 {
            128
        } else {
            0
        },
    }
}

/// Compare: the flags of a subtraction, the accumulator as it was. Zero is
/// set when the two are equal, HalfCarry when the low nibble of the
/// accumulator is below that of the operand, Carry when the accumulator is
/// below the operand.
pub open spec fn cp8(a: u8, f: u8, v: u8) -> AluResult {
    AluResult { a, f: flags_byte(f, a == v, true, a % 16 < v % 16, a < v) }
}

/// The operation of the accumulator that an instruction stands for, applied
/// to the accumulator `a`, the flags byte `f` and the operand `v`.
pub open spec fn alu_result(instr: Instr, a: u8, f: u8, v: u8) -> AluResult {
    match instr {
        Instr::Add(_) => add8(a, f, v, false),
        Instr::Adc(_) => add8(a, f, v, bit_at(f, 3)),
        Instr::Sub(_) => sub8(a, f, v, false),
        Instr::Sbc(_) => sub8(a, f, v, bit_at(f, 3)),
        Instr::And(_) => and8(a, f, v),
        Instr::Or(_) => or8(a, f, v),
        Instr::Xor(_) => xor8(a, v),
        Instr::Cp(_) => cp8(a, f, v),
        _ => AluResult { a, f },
    }
}

/// An operation on the accumulator and the low byte of an operand. The
/// accumulator is read before the operand is resolved, the flags after. A
/// compare writes the flags only.
#[verifier::opaque]
pub open spec fn alu(m: Machine, instr: Instr, src: Operand) -> Machine {
    let m = m.skip(1);
    let (v, m1) = fetch(m, src);
    let r = alu_result(instr, m.a(), m1.f(), wrap8(v as int));
    if instr is Cp {
        m1.set_f(r.f)
    } else {
        m1.set_a(r.a).set_f(r.f)
    }
}

/// `ADD HL,rr`: Zero stays, Subtract is cleared, HalfCarry is the carry out
/// of bit 11 and Carry the carry out of bit 15.
#[verifier::opaque]
pub open spec fn add_hl(m: Machine, src: Operand) -> Machine {
    let m = m.skip(1);
    let (v, m1) = fetch(m, src);
    let hl = m1.reg(Reg::HL);
    let f = m1.f();
    m1.set_reg(Reg::HL, wrap16(hl + v)).set_f(
        flags_byte(f, bit_at(f, 0), false, hl % 4096 + v % 4096 >= 4096, hl + v >= 65536),
    )
}

/// What a rotation or shift of a byte gives: the new byte and the bit that
/// left it.
pub struct Shifted {
    pub value: u8,
    pub carry: bool,
}

/// Rotate left: bit 7 goes to bit 0 and to the carry.
pub open spec fn rlc(x: u8) -> Shifted {
    Shifted { value: wrap8(2 * x + x / 128), carry: x >= 128 }
}

/// Rotate left through the carry: the carry goes to bit 0, bit 7 to the
/// carry.
pub open spec fn rl(x: u8, carry_in: bool) -> Shifted {
    Shifted {
        value: wrap8(
            2 * x + if carry_in {
                1int
            } else {
                0
            },
        ),
        carry: x >= 128,
    }
}

/// Rotate right: bit 0 goes to bit 7 and to the carry.
pub open spec fn rrc(x: u8) -> Shifted {
    Shifted { value: (x / 2 + 128 * (x % 2)) as u8, carry: x % 2 == 1 }
}

/// Rotate right through the carry: the carry goes to bit 7, bit 0 to the
/// carry.
pub open spec fn rr(x: u8, carry_in: bool) -> Shifted {
    Shifted {
        value: (x / 2 + if carry_in {
            128int
        } else {
            0
        }) as u8,
        carry: x % 2 == 1,
    }
}

/// Shift left: bit 0 is cleared, bit 7 goes to the carry.
pub open spec fn sla(x: u8) -> Shifted {
    Shifted { value: wrap8(2 * x), carry: x >= 128 }
}

/// Shift right, bit 7 staying as it is: bit 0 goes to the carry.
pub open spec fn sra(x: u8) -> Shifted {
    Shifted {
        value: (x / 2 + if x >= 128 {
            128int
        } else {
            0
        }) as u8,
        carry: x % 2 == 1,
    }
}

/// Shift right: bit 7 is cleared, bit 0 goes to the carry.
pub open spec fn srl(x: u8) -> Shifted {
    Shifted { value: x / 2, carry: x % 2 == 1 }
}

/// Exchange of the two nibbles: no bit leaves the byte.
pub open spec fn swap(x: u8) -> Shifted {
    Shifted { value: ((x % 16) * 16 + x / 16) as u8, carry: false }
}

/// A rotation of the accumulator: Zero, Subtract and HalfCarry are cleared
/// whatever the result.
#[verifier::opaque]
pub open spec fn rotate_a(m: Machine, r: Shifted) -> Machine {
    let m = m.skip(1);
    m.set_f(flags_byte(m.f(), false, false, false, r.carry)).set_a(r.value)
}

/// `DAA`: adjusts the accumulator to two decimal digits after an addition
/// or a subtraction of such numbers.
#[verifier::opaque]
pub open spec fn daa(m: Machine) -> Machine {
    let m = m.skip(1);
    let a = m.a();
    let high = m.carry() || (!m.subtract() && a > 0x99);
    let low = m.half_carry() || (!m.subtract() && a % 16 > 9);
    let fix: int = (if high {
        0x60int
    } else {
        0
    }) + (if low {
        0x06int
    } else {
        0
    });
    let r = if m.subtract() {
        wrap8(a - fix)
    } else {
        wrap8(a + fix)
    };
    m.set_a(r).set_f(flags_byte(m.f(), r == 0, m.subtract(), false, high))
}

/// `CPL`: every bit of the accumulator is turned; Subtract and HalfCarry
/// are set.
#[verifier::opaque]
pub open spec fn cpl(m: Machine) -> Machine {
    let m = m.skip(1);
    m.set_a((255 - m.a()) as u8).set_f(flags_byte(m.f(), m.zero(), true, true, m.carry()))
}

/// `SCF`: Carry is set, Subtract and HalfCarry are cleared.
#[verifier::opaque]
pub open spec fn scf(m: Machine) -> Machine {
    let m = m.skip(1);
    m.set_f(flags_byte(m.f(), m.zero(), false, false, true))
}

/// `CCF`: Carry is turned, Subtract and HalfCarry are cleared.
#[verifier::opaque]
pub open spec fn ccf(m: Machine) -> Machine {
    let m = m.skip(1);
    m.set_f(flags_byte(m.f(), m.zero(), false, false, !m.carry()))
}

/// Whether a condition holds of the flags.
pub open spec fn holds(m: Machine, c: Cond) -> bool {
    match c {
        Cond::Always => true,
        Cond::NZ => !m.zero(),
        Cond::Z => m.zero(),
        Cond::NC => !m.carry(),
        Cond::C => m.carry(),
    }
}

/// `JP`: the operand is consumed whether or not the jump is taken.
#[verifier::opaque]
pub open spec fn jp(m: Machine, c: Cond, target: Operand) -> Machine {
    let m = m.skip(1);
    let (v, m1) = fetch(m, target);
    if holds(m, c) {
        Machine { pc: v, ..m1 }
    } else {
        m1
    }
}

/// `JR`: the offset counts from the byte after the instruction.
#[verifier::opaque]
pub open spec fn jr(m: Machine, c: Cond, offset: Operand) -> Machine {
    let m = m.skip(1);
    let (v, m1) = fetch(m, offset);
    if holds(m, c) {
        Machine { pc: wrap16(m1.pc + v), ..m1 }
    } else {
        m1
    }
}

/// `CALL`: the address of the next instruction is pushed before the jump.
#[verifier::opaque]
pub open spec fn call(m: Machine, c: Cond, target: Operand) -> Machine {
    let m = m.skip(1);
    let (v, m1) = fetch(m, target);
    if holds(m, c) {
        Machine { pc: v, ..m1.push16(m1.pc) }
    } else {
        m1
    }
}

/// `RET`: where the condition fails the stack stays as it is.
#[verifier::opaque]
pub open spec fn ret(m: Machine, c: Cond) -> Machine {
    let m = m.skip(1);
    if holds(m, c) {
        Machine { pc: m.top16(), ..m.drop16() }
    } else {
        m
    }
}

/// `RETI`: a return that also switches the interrupts on.
pub open spec fn reti(m: Machine) -> Machine {
    Machine { interrupts: true, ..ret(m, Cond::Always) }
}

/// `RST`: a call to the fixed address `vector`.
#[verifier::opaque]
pub open spec fn rst(m: Machine, vector: u16) -> Machine {
    let m = m.skip(1);
    Machine { pc: vector, ..m.push16(m.pc) }
}

/// The instruction of the base table `instr` on the machine `m`.
pub open spec fn exec(m: Machine, instr: Instr) -> Machine {
    match instr {
        Instr::Nop | Instr::Unused => m.skip(1),
        Instr::Stop => Machine { stopped: true, ..m.skip(2) },
        Instr::Halt => Machine { stopped: true, ..m.skip(1) },
        Instr::Di => Machine { interrupts: false, ..m.skip(1) },
        Instr::Ei => Machine { interrupts: true, ..m.skip(1) },
        Instr::Prefix => prefix(m),
        Instr::Ld(dst, src) => ld(m, dst, src),
        Instr::Ldh(dst, src) => ldh(m, dst, src),
        Instr::LdHlSp => ld_hl_sp(m),
        Instr::Push(r) => push(m, r),
        Instr::Pop(r) => pop(m, r),
        Instr::Inc(target) => inc(m, target),
        Instr::Dec(target) => dec(m, target),
        Instr::Add(src) | Instr::Adc(src) | Instr::Sub(src) | Instr::Sbc(src) | Instr::And(src)
        | Instr::Or(src) | Instr::Xor(src) | Instr::Cp(src) => alu(m, instr, src),
        Instr::AddHl(src) => add_hl(m, src),
        Instr::AddSp => add_sp(m),
        Instr::Rlca => rotate_a(m, rlc(m.a())),
        Instr::Rla => rotate_a(m, rl(m.a(), m.carry())),
        Instr::Rrca => rotate_a(m, rrc(m.a())),
        Instr::Rra => rotate_a(m, rr(m.a(), m.carry())),
        Instr::Daa => daa(m),
        Instr::Cpl => cpl(m),
        Instr::Scf => scf(m),
        Instr::Ccf => ccf(m),
        Instr::Jp(c, target) => jp(m, c, target),
        Instr::Jr(c, offset) => jr(m, c, offset),
        Instr::Call(c, target) => call(m, c, target),
        Instr::Ret(c) => ret(m, c),
        Instr::Reti => reti(m),
        Instr::Rst(vector) => rst(m, vector),
    }
}

/// The byte that an instruction of the extended table works on: a register,
/// or the memory cell that a register points to. Another kind of operand has
/// none.
pub open spec fn target_byte(m: Machine, target: Operand) -> Option<u8> {
    match parse(m, target) {
        GBData::REG { name, inc, dec, addr } => Some(
            if addr {
                m.byte(m.reg(name))
            } else {
                wrap8(m.reg(name) as int)
            },
        ),
        _ => None,
    }
}

/// The machine after `value` was written to the place that `target_byte`
/// reads.
pub open spec fn set_target_byte(m: Machine, target: Operand, value: u8) -> Machine {
    match parse(m, target) {
        GBData::REG { name, inc, dec, addr } => if addr {
            m.store(m.reg(name), value)
        } else {
            m.set_reg(name, value as u16)
        },
        _ => m,
    }
}

/// The rotation or shift that an instruction of the extended table stands
/// for, applied to the byte `x` with the carry `carry_in`.
pub open spec fn shifted(instr: CbInstr, x: u8, carry_in: bool) -> Shifted {
    match instr {
        CbInstr::Rlc(_) => rlc(x),
        CbInstr::Rrc(_) => rrc(x),
        CbInstr::Rl(_) => rl(x, carry_in),
        CbInstr::Rr(_) => rr(x, carry_in),
        CbInstr::Sla(_) => sla(x),
        CbInstr::Sra(_) => sra(x),
        CbInstr::Swap(_) => swap(x),
        CbInstr::Srl(_) => srl(x),
        _ => Shifted { value: x, carry: carry_in },
    }
}

/// A rotation or shift of a register or memory byte: Zero tells whether the
/// result is zero, Subtract and HalfCarry are cleared, Carry is the bit that
/// left the byte.
#[verifier::opaque]
pub open spec fn shift(m: Machine, instr: CbInstr, target: Operand) -> Machine {
    let m = m.skip(1);
    match target_byte(m, target) {
        Some(x) => {
            let r = shifted(instr, x, m.carry());
            set_target_byte(
                m.set_f(flags_byte(m.f(), r.value == 0, false, false, r.carry)),
                target,
                r.value,
            )
        },
        None => m,
    }
}

/// `BIT`: Zero is set when bit `n` of the operand, counted from the least
/// significant, is clear; Subtract is cleared, HalfCarry set, Carry stays.
#[verifier::opaque]
pub open spec fn bit(m: Machine, n: u8, src: Operand) -> Machine {
    let m = m.skip(1);
    let (v, m1) = fetch(m, src);
    let f = m1.f();
    m1.set_f(flags_byte(f, !bit_at(wrap8(v as int), 7 - n), false, true, bit_at(f, 3)))
}

/// `RES` and `SET`: bit `n` of the operand, counted from the least
/// significant, becomes `value`; no flag changes.
#[verifier::opaque]
pub open spec fn assign(m: Machine, n: u8, target: Operand, value: bool) -> Machine {
    let m = m.skip(1);
    match target_byte(m, target) {
        Some(x) => set_target_byte(m, target, with_bit(x, 7 - n, value) as u8),
        None => m,
    }
}

/// The instruction of the extended table `instr` on the machine `m`, whose
/// program counter is at the byte after the escape.
pub open spec fn exec_cb(m: Machine, instr: CbInstr) -> Machine {
    match instr {
        CbInstr::Bit(n, src) => bit(m, n, src),
        CbInstr::Res(n, target) => assign(m, n, target, false),
        CbInstr::SetBit(n, target) => assign(m, n, target, true),
        CbInstr::Rlc(target) | CbInstr::Rrc(target) | CbInstr::Rl(target) | CbInstr::Rr(target)
        | CbInstr::Sla(target) | CbInstr::Sra(target) | CbInstr::Swap(target) | CbInstr::Srl(
            target,
        ) => shift(m, instr, target),
    }
}

/// The escape: the byte after it selects an instruction of the extended
/// table, whose cost replaces that of the escape.
#[verifier::opaque]
pub open spec fn prefix(m: Machine) -> Machine {
    let m = m.skip(1);
    let op = m.imm8();
    exec_cb(Machine { cycles: extended_cycles(op), ..m }, decode_cb(op))
}

/// One instruction: the opcode at the program counter is looked up, its cost
/// recorded, and the instruction executed.
pub open spec fn run(m: Machine) -> Machine {
    let op = m.imm8();
    exec(Machine { cycles: base_cycles(op), ..m }, decode(op))
}

/// Whether an interrupt is both enabled and requested.
pub open spec fn wakes(m: Machine) -> bool {
    m.mem[INTERRUPT_ENABLE as int] & m.mem[INTERRUPT_REQUEST as int] != 0
}

/// One step of the processor. A stopped processor stays as it is until an
/// interrupt is both enabled and requested; it then runs on.
pub open spec fn step(m: Machine) -> Machine {
    if !m.stopped {
        run(m)
    } else if wakes(m) {
        run(Machine { stopped: false, ..m })
    } else {
        m
    }
}

} // verus!
