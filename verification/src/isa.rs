//! The instruction set: operations, operand descriptors, and the way the
//! bits of an opcode name them.
//!
//! An opcode splits into three fields: `x`, its two highest bits; `y`, the
//! next three; `z`, the lowest three. `y` in turn splits into `p`, its two
//! higher bits, and `q`, its lowest. The specification functions here read
//! an instruction and its cost off those fields.

use crate::regset::Reg;
use vstd::prelude::*;

verus! {

/// The condition under which a jump, call or return is taken.
#[derive(Clone, Copy, Debug, PartialEq, Eq, Structural)]
pub enum Cond {
    Always,
    NZ,
    Z,
    NC,
    C,
}

/// An operand as the instruction table describes it, before any byte of the
/// instruction stream is read.
#[derive(Clone, Copy, Debug, PartialEq, Eq, Structural)]
pub enum Operand {
    /// A 16-bit immediate, low byte first.
    D16,
    /// An 8-bit immediate.
    D8,
    /// A signed 8-bit offset.
    R8,
    /// The memory cell in the high page whose low address byte follows.
    A8,
    /// The memory cell whose 16-bit address follows.
    A16,
    /// The stack pointer.
    SP,
    /// The program counter.
    PC,
    /// A register, or with `addr` the memory cell that it points to; with
    /// `inc` or `dec` the register moves by one once the operand was used.
    Reg { name: Reg, inc: bool, dec: bool, addr: bool },
}

impl Operand {
    /// The number of bytes of the instruction stream that the operand takes.
    pub open spec fn width(self) -> int {
        match self {
            Operand::D8 | Operand::R8 | Operand::A8 => 1,
            Operand::D16 | Operand::A16 => 2,
            _ => 0,
        }
    }
}

/// An operand whose immediate bytes have been read.
#[allow(inconsistent_fields)]
#[derive(Clone, Copy, Debug, PartialEq, Eq, Structural)]
pub enum GBData {
    D16(u16),
    D8(u8),
    R8(i8),
    ADDRESS { addr: u16, size: u16 },
    SP,
    PC,
    REG { name: Reg, inc: bool, dec: bool, addr: bool },
}

/// An instruction of the base table.
#[derive(Clone, Copy, Debug, PartialEq, Eq, Structural)]
pub enum Instr {
    Nop,
    /// An opcode without any behaviour on this machine.
    Unused,
    Stop,
    Halt,
    Di,
    Ei,
    /// The escape to the extended table.
    Prefix,
    /// Load: destination, source.
    Ld(Operand, Operand),
    /// Load to or from the high page: destination, source.
    Ldh(Operand, Operand),
    /// Load into `HL` the stack pointer plus a signed offset.
    LdHlSp,
    Push(Reg),
    Pop(Reg),
    Inc(Operand),
    Dec(Operand),
    Add(Operand),
    Adc(Operand),
    Sub(Operand),
    Sbc(Operand),
    And(Operand),
    Or(Operand),
    Xor(Operand),
    Cp(Operand),
    /// Add a 16-bit operand to `HL`.
    AddHl(Operand),
    /// Add a signed offset to the stack pointer.
    AddSp,
    Rlca,
    Rla,
    Rrca,
    Rra,
    Daa,
    Cpl,
    Scf,
    Ccf,
    Jp(Cond, Operand),
    Jr(Cond, Operand),
    Call(Cond, Operand),
    Ret(Cond),
    Reti,
    /// Call to a fixed address in the first page.
    Rst(u16),
}

/// An instruction of the extended table.
#[derive(Clone, Copy, Debug, PartialEq, Eq, Structural)]
pub enum CbInstr {
    Rlc(Operand),
    Rrc(Operand),
    Rl(Operand),
    Rr(Operand),
    Sla(Operand),
    Sra(Operand),
    Swap(Operand),
    Srl(Operand),
    /// Test a bit: its number, counted from the least significant, and the
    /// operand.
    Bit(u8, Operand),
    /// Clear a bit.
    Res(u8, Operand),
    /// Set a bit.
    SetBit(u8, Operand),
}

impl CbInstr {
    /// A bit number is below 8.
    pub open spec fn wf(self) -> bool {
        match self {
            CbInstr::Bit(n, _) | CbInstr::Res(n, _) | CbInstr::SetBit(n, _) => n < 8,
            _ => true,
        }
    }
}

/// The opcode that escapes to the extended table.
pub const PREFIX: u8 = 0xCB;

/// The register `name` itself.
pub open spec fn direct(name: Reg) -> Operand {
    Operand::Reg { name, inc: false, dec: false, addr: false }
}

/// The memory cell that `name` points to.
pub open spec fn indirect(name: Reg) -> Operand {
    Operand::Reg { name, inc: false, dec: false, addr: true }
}

/// The memory cell that `name` points to; `name` then goes up by one.
pub open spec fn indirect_inc(name: Reg) -> Operand {
    Operand::Reg { name, inc: true, dec: false, addr: true }
}

/// The memory cell that `name` points to; `name` then goes down by one.
pub open spec fn indirect_dec(name: Reg) -> Operand {
    Operand::Reg { name, inc: false, dec: true, addr: true }
}

/// The 8-bit operand that a three-bit field selects.
pub open spec fn r8(i: int) -> Operand {
    if i == 0 {
        direct(Reg::B)
    } else if i == 1 {
        direct(Reg::C)
    } else if i == 2 {
        direct(Reg::D)
    } else if i == 3 {
        direct(Reg::E)
    } else if i == 4 {
        direct(Reg::H)
    } else if i == 5 {
        direct(Reg::L)
    } else if i == 6 {
        indirect(Reg::HL)
    } else {
        direct(Reg::A)
    }
}

/// The 16-bit operand that a two-bit field selects in loads and arithmetic.
pub open spec fn rp(p: int) -> Operand {
    if p == 0 {
        direct(Reg::BC)
    } else if p == 1 {
        direct(Reg::DE)
    } else if p == 2 {
        direct(Reg::HL)
    } else {
        Operand::SP
    }
}

/// The 16-bit register that a two-bit field selects in pushes and pops.
pub open spec fn rp2(p: int) -> Reg {
    if p == 0 {
        Reg::BC
    } else if p == 1 {
        Reg::DE
    } else if p == 2 {
        Reg::HL
    } else {
        Reg::AF
    }
}

/// The memory operand that a two-bit field selects in the loads between the
/// accumulator and a cell that a register pair points to.
pub open spec fn pointer(p: int) -> Operand {
    if p == 0 {
        indirect(Reg::BC)
    } else if p == 1 {
        indirect(Reg::DE)
    } else if p == 2 {
        indirect_inc(Reg::HL)
    } else {
        indirect_dec(Reg::HL)
    }
}

/// The condition that a two-bit field selects.
pub open spec fn cc(i: int) -> Cond {
    if i == 0 {
        Cond::NZ
    } else if i == 1 {
        Cond::Z
    } else if i == 2 {
        Cond::NC
    } else {
        Cond::C
    }
}

/// The accumulator operation that a three-bit field selects.
pub open spec fn alu(y: int, src: Operand) -> Instr {
    if y == 0 {
        Instr::Add(src)
    } else if y == 1 {
        Instr::Adc(src)
    } else if y == 2 {
        Instr::Sub(src)
    } else if y == 3 {
        Instr::Sbc(src)
    } else if y == 4 {
        Instr::And(src)
    } else if y == 5 {
        Instr::Xor(src)
    } else if y == 6 {
        Instr::Or(src)
    } else {
        Instr::Cp(src)
    }
}

/// The instructions of the first quarter of the base table.
pub open spec fn decode_low(y: int, z: int) -> Instr {
    let p = y / 2;
    let q = y % 2;
    if z == 0 {
        if y == 0 {
            Instr::Nop
        } else if y == 1 {
            Instr::Ld(Operand::A16, Operand::SP)
        } else if y == 2 {
            Instr::Stop
        } else if y == 3 {
            Instr::Jr(Cond::Always, Operand::R8)
        } else {
            Instr::Jr(cc(y - 4), Operand::R8)
        }
    } else if z == 1 {
        if q == 0 {
            Instr::Ld(rp(p), Operand::D16)
        } else {
            Instr::AddHl(rp(p))
        }
    } else if z == 2 {
        if q == 0 {
            Instr::Ld(pointer(p), direct(Reg::A))
        } else {
            Instr::Ld(direct(Reg::A), pointer(p))
        }
    } else if z == 3 {
        if q == 0 {
            Instr::Inc(rp(p))
        } else {
            Instr::Dec(rp(p))
        }
    } else if z == 4 {
        Instr::Inc(r8(y))
    } else if z == 5 {
        Instr::Dec(r8(y))
    } else if z == 6 {
        Instr::Ld(r8(y), Operand::D8)
    } else if y == 0 {
        Instr::Rlca
    } else if y == 1 {
        Instr::Rrca
    } else if y == 2 {
        Instr::Rla
    } else if y == 3 {
        Instr::Rra
    } else if y == 4 {
        Instr::Daa
    } else if y == 5 {
        Instr::Cpl
    } else if y == 6 {
        Instr::Scf
    } else {
        Instr::Ccf
    }
}

/// The instructions of the last quarter of the base table.
pub open spec fn decode_high(y: int, z: int) -> Instr {
    let p = y / 2;
    let q = y % 2;
    if z == 0 {
        if y < 4 {
            Instr::Ret(cc(y))
        } else if y == 4 {
            Instr::Ldh(Operand::A8, direct(Reg::A))
        } else if y == 5 {
            Instr::AddSp
        } else if y == 6 {
            Instr::Ldh(direct(Reg::A), Operand::A8)
        } else {
            Instr::LdHlSp
        }
    } else if z == 1 {
        if q == 0 {
            Instr::Pop(rp2(p))
        } else if p == 0 {
            Instr::Ret(Cond::Always)
        } else if p == 1 {
            Instr::Reti
        } else if p == 2 {
            Instr::Jp(Cond::Always, direct(Reg::HL))
        } else {
            Instr::Ld(Operand::SP, direct(Reg::HL))
        }
    } else if z == 2 {
        if y < 4 {
            Instr::Jp(cc(y), Operand::D16)
        } else if y == 4 {
            Instr::Ld(indirect(Reg::C), direct(Reg::A))
        } else if y == 5 {
            Instr::Ld(Operand::A16, direct(Reg::A))
        } else if y == 6 {
            Instr::Ld(direct(Reg::A), indirect(Reg::C))
        } else {
            Instr::Ld(direct(Reg::A), Operand::A16)
        }
    } else if z == 3 {
        if y == 0 {
            Instr::Jp(Cond::Always, Operand::D16)
        } else if y == 1 {
            Instr::Prefix
        } else if y == 6 {
            Instr::Di
        } else if y == 7 {
            Instr::Ei
        } else {
            Instr::Unused
        }
    } else if z == 4 {
        if y < 4 {
            Instr::Call(cc(y), Operand::D16)
        } else {
            Instr::Unused
        }
    } else if z == 5 {
        if q == 0 {
            Instr::Push(rp2(p))
        } else if p == 0 {
            Instr::Call(Cond::Always, Operand::D16)
        } else {
            Instr::Unused
        }
    } else if z == 6 {
        alu(y, Operand::D8)
    } else {
        Instr::Rst((8 * y) as u16)
    }
}

/// The instruction that an opcode of the base table stands for.
pub open spec fn decode(op: u8) -> Instr {
    let x = op as int / 64;
    let y = (op as int / 8) % 8;
    let z = op as int % 8;
    if x == 0 {
        decode_low(y, z)
    } else if x == 1 {
        if y == 6 && z == 6 {
            Instr::Halt
        } else {
            Instr::Ld(r8(y), r8(z))
        }
    } else if x == 2 {
        alu(y, r8(z))
    } else {
        decode_high(y, z)
    }
}

/// The rotation or shift that a three-bit field selects.
pub open spec fn rot(y: int, target: Operand) -> CbInstr {
    if y == 0 {
        CbInstr::Rlc(target)
    } else if y == 1 {
        CbInstr::Rrc(target)
    } else if y == 2 {
        CbInstr::Rl(target)
    } else if y == 3 {
        CbInstr::Rr(target)
    } else if y == 4 {
        CbInstr::Sla(target)
    } else if y == 5 {
        CbInstr::Sra(target)
    } else if y == 6 {
        CbInstr::Swap(target)
    } else {
        CbInstr::Srl(target)
    }
}

/// The number below 8 that a three-bit field holds, as a byte.
pub open spec fn bit_number(y: int) -> u8 {
    if y == 0 {
        0
    } else if y == 1 {
        1
    } else if y == 2 {
        2
    } else if y == 3 {
        3
    } else if y == 4 {
        4
    } else if y == 5 {
        5
    } else if y == 6 {
        6
    } else {
        7
    }
}

/// The instruction that an opcode of the extended table stands for.
pub open spec fn decode_cb(op: u8) -> CbInstr {
    let x = op as int / 64;
    let y = (op as int / 8) % 8;
    let target = r8(op as int % 8);
    if x == 0 {
        rot(y, target)
    } else if x == 1 {
        CbInstr::Bit(bit_number(y), target)
    } else if x == 2 {
        CbInstr::Res(bit_number(y), target)
    } else {
        CbInstr::SetBit(bit_number(y), target)
    }
}

/// The cost in clock ticks of the first quarter of the base table.
pub open spec fn cycles_low(y: int, z: int) -> nat {
    if z == 0 {
        if y == 0 || y == 2 {
            4
        } else if y == 1 {
            20
        } else if y == 3 {
            12
        } else {
            8
        }
    } else if z == 1 {
        if y % 2 == 0 {
            12
        } else {
            8
        }
    } else if z == 2 || z == 3 {
        8
    } else if z == 4 || z == 5 {
        if y == 6 {
            12
        } else {
            4
        }
    } else if z == 6 {
        if y == 6 {
            12
        } else {
            8
        }
    } else {
        4
    }
}

/// The cost in clock ticks of the last quarter of the base table. An opcode
/// without behaviour costs nothing.
pub open spec fn cycles_high(y: int, z: int) -> nat {
    let p = y / 2;
    let q = y % 2;
    if z == 0 {
        if y < 4 {
            8
        } else if y == 5 {
            16
        } else {
            12
        }
    } else if z == 1 {
        if q == 0 {
            12
        } else if p < 2 {
            16
        } else if p == 2 {
            4
        } else {
            8
        }
    } else if z == 2 {
        if y < 4 {
            12
        } else if q == 0 {
            8
        } else {
            16
        }
    } else if z == 3 {
        if y == 0 {
            16
        } else if y == 1 || y >= 6 {
            4
        } else {
            0
        }
    } else if z == 4 {
        if y < 4 {
            12
        } else {
            0
        }
    } else if z == 5 {
        if q == 0 {
            16
        } else if p == 0 {
            24
        } else {
            0
        }
    } else if z == 6 {
        8
    } else {
        16
    }
}

/// The cost in clock ticks of an opcode of the base table. It does not depend
/// on whether a conditional jump, call or return is taken.
pub open spec fn base_cycles(op: u8) -> nat {
    let x = op as int / 64;
    let y = (op as int / 8) % 8;
    let z = op as int % 8;
    if x == 0 {
        cycles_low(y, z)
    } else if x == 1 {
        if y == 6 && z == 6 {
            4
        } else if y == 6 || z == 6 {
            8
        } else {
            4
        }
    } else if x == 2 {
        if z == 6 {
            8
        } else {
            4
        }
    } else {
        cycles_high(y, z)
    }
}

/// The cost in clock ticks of an opcode of the extended table, the escape
/// byte included.
pub open spec fn extended_cycles(op: u8) -> nat {
    if op % 8 == 6 {
        16
    } else {
        8
    }
}

} // verus!
