//! The register file: four 16-bit slots whose halves are registers of their
//! own.

use vstd::prelude::*;

verus! {

/// A register name: one of the four 16-bit slots, or the high or low half of
/// one of them.
#[derive(Clone, Copy, Debug, PartialEq, Eq, Structural)]
pub enum Reg {
    A,
    F,
    B,
    C,
    D,
    E,
    H,
    L,
    AF,
    BC,
    DE,
    HL,
}

/// Which part of a slot a register name stands for.
#[derive(Clone, Copy, Debug, PartialEq, Eq, Structural)]
pub enum Part {
    Whole,
    High,
    Low,
}

impl Reg {
    /// The 16-bit slot that holds the register.
    pub open spec fn slot(self) -> Reg {
        match self {
            Reg::A | Reg::F | Reg::AF => Reg::AF,
            Reg::B | Reg::C | Reg::BC => Reg::BC,
            Reg::D | Reg::E | Reg::DE => Reg::DE,
            Reg::H | Reg::L | Reg::HL => Reg::HL,
        }
    }

    /// The part of its slot that the register occupies.
    pub open spec fn part(self) -> Part {
        match self {
            Reg::AF | Reg::BC | Reg::DE | Reg::HL => Part::Whole,
            Reg::A | Reg::B | Reg::D | Reg::H => Part::High,
            Reg::F | Reg::C | Reg::E | Reg::L => Part::Low,
        }
    }

    /// Whether the name is that of a whole 16-bit slot.
    pub open spec fn is_wide(self) -> bool {
        self.part() == Part::Whole
    }

    /// The name of the high half of the register's slot.
    pub open spec fn high(self) -> Reg {
        match self.slot() {
            Reg::AF => Reg::A,
            Reg::BC => Reg::B,
            Reg::DE => Reg::D,
            _ => Reg::H,
        }
    }

    /// The name of the low half of the register's slot.
    pub open spec fn low(self) -> Reg {
        match self.slot() {
            Reg::AF => Reg::F,
            Reg::BC => Reg::C,
            Reg::DE => Reg::E,
            _ => Reg::L,
        }
    }

    /// The slot of a register and the part of it that the register occupies.
    pub fn origin(self) -> (r: (Reg, Part))
        ensures
            r.0 == self.slot(),
            r.1 == self.part(),
    {
        match self {
            Reg::AF => (Reg::AF, Part::Whole),
            Reg::BC => (Reg::BC, Part::Whole),
            Reg::DE => (Reg::DE, Part::Whole),
            Reg::HL => (Reg::HL, Part::Whole),
            Reg::A => (Reg::AF, Part::High),
            Reg::B => (Reg::BC, Part::High),
            Reg::D => (Reg::DE, Part::High),
            Reg::H => (Reg::HL, Part::High),
            Reg::F => (Reg::AF, Part::Low),
            Reg::C => (Reg::BC, Part::Low),
            Reg::E => (Reg::DE, Part::Low),
            Reg::L => (Reg::HL, Part::Low),
        }
    }

    /// Whether the name is that of a whole 16-bit slot.
    pub fn wide(self) -> (r: bool)
        ensures
            r == self.is_wide(),
    {
        match self {
            Reg::AF | Reg::BC | Reg::DE | Reg::HL => true,
            _ => false,
        }
    }
}

/// The integer `i` reduced to 16 bits.
pub open spec fn wrap16(i: int) -> u16 {
    (i % 0x10000) as u16
}

/// The integer `i` reduced to 8 bits.
pub open spec fn wrap8(i: int) -> u8 {
    (i % 0x100) as u8
}

/// The values of the four slots.
pub struct RegFile {
    pub af: u16,
    pub bc: u16,
    pub de: u16,
    pub hl: u16,
}

impl RegFile {
    /// The value of the slot that holds `reg`.
    pub open spec fn slot_value(self, reg: Reg) -> u16 {
        match reg.slot() {
            Reg::AF => self.af,
            Reg::BC => self.bc,
            Reg::DE => self.de,
            _ => self.hl,
        }
    }

    /// The register file with the slot that holds `reg` replaced by `value`.
    pub open spec fn with_slot(self, reg: Reg, value: u16) -> RegFile {
        match reg.slot() {
            Reg::AF => RegFile { af: value, ..self },
            Reg::BC => RegFile { bc: value, ..self },
            Reg::DE => RegFile { de: value, ..self },
            _ => RegFile { hl: value, ..self },
        }
    }

    /// What a read of `reg` gives: the slot itself, or its high or low byte
    /// as a number below 256.
    #[verifier::opaque]
    pub open spec fn read(self, reg: Reg) -> u16 {
        let slot = self.slot_value(reg);
        match reg.part() {
            Part::Whole => slot,
            Part::High => slot / 256,
            Part::Low => slot % 256,
        }
    }

    /// The register file after a write of `value` to `reg`. A slot takes the
    /// value as it is; a half takes its low eight bits and leaves the other
    /// half of the slot alone.
    #[verifier::opaque]
    pub open spec fn write(self, reg: Reg, value: u16) -> RegFile {
        let slot = self.slot_value(reg);
        let next = match reg.part() {
            Part::Whole => value,
            Part::High => ((value % 256) * 256 + slot % 256) as u16,
            Part::Low => ((slot / 256) * 256 + value % 256) as u16,
        };
        self.with_slot(reg, next)
    }

    /// The register file after `reg` went up by one, wrapping at 16 bits
    /// before the write.
    pub open spec fn inc(self, reg: Reg) -> RegFile {
        self.write(reg, wrap16(self.read(reg) + 1))
    }

    /// The register file after `reg` went down by one, wrapping at 16 bits
    /// before the write.
    pub open spec fn dec(self, reg: Reg) -> RegFile {
        self.write(reg, wrap16(self.read(reg) - 1))
    }
}

/// A write to the high half of a slot leaves the low half as it was, and the
/// slot then reads as the written byte above the old low byte.
pub proof fn lemma_high_write_keeps_low(regs: RegFile, reg: Reg, v: u16)
    requires
        v <= 255,
    ensures
        regs.write(reg.high(), v).read(reg.low()) == regs.read(reg.low()),
        regs.write(reg.high(), v).read(reg.high()) == v,
        regs.write(reg.high(), v).read(reg.slot()) == v * 256 + regs.read(reg.low()),
{
    reveal(RegFile::read);
    reveal(RegFile::write);
}

/// A write to the low half of a slot leaves the high half as it was, and the
/// slot then reads as the old high byte above the written byte.
pub proof fn lemma_low_write_keeps_high(regs: RegFile, reg: Reg, v: u16)
    requires
        v <= 255,
    ensures
        regs.write(reg.low(), v).read(reg.high()) == regs.read(reg.high()),
        regs.write(reg.low(), v).read(reg.low()) == v,
        regs.write(reg.low(), v).read(reg.slot()) == regs.read(reg.high()) * 256 + v,
{
    reveal(RegFile::read);
    reveal(RegFile::write);
}

/// A half register is below 256.
pub proof fn lemma_half_is_a_byte(regs: RegFile, reg: Reg)
    requires
        !reg.is_wide(),
    ensures
        regs.read(reg) < 256,
{
    reveal(RegFile::read);
}

/// A slot reads as its high half above its low half.
pub proof fn lemma_slot_of_halves(regs: RegFile, reg: Reg)
    ensures
        regs.read(reg.slot()) == regs.read(reg.high()) * 256 + regs.read(reg.low()),
{
    reveal(RegFile::read);
}

/// A write to a slot is read back in its halves.
pub proof fn lemma_halves_of_written_slot(regs: RegFile, reg: Reg, v: u16)
    requires
        reg.is_wide(),
    ensures
        regs.write(reg, v).read(reg.high()) == v / 256,
        regs.write(reg, v).read(reg.low()) == v % 256,
{
    reveal(RegFile::read);
    reveal(RegFile::write);
}

/// A register reads as what was written to it last: a half as the low eight
/// bits of the value.
pub proof fn lemma_read_written(regs: RegFile, reg: Reg, v: u16)
    ensures
        regs.write(reg, v).read(reg) == (if reg.is_wide() {
            v
        } else {
            v % 256
        }),
{
    reveal(RegFile::read);
    reveal(RegFile::write);
}

/// A write to one half register changes no other half register.
pub proof fn lemma_write_keeps_other_halves(regs: RegFile, reg: Reg, other: Reg, v: u16)
    requires
        !reg.is_wide(),
        !other.is_wide(),
        reg != other,
    ensures
        regs.write(reg, v).read(other) == regs.read(other),
{
    reveal(RegFile::read);
    reveal(RegFile::write);
}

/// A write to one slot, or to a half of it, changes no other slot.
pub proof fn lemma_write_keeps_other_slots(regs: RegFile, reg: Reg, other: Reg, v: u16)
    requires
        reg.slot() != other.slot(),
    ensures
        regs.write(reg, v).read(other) == regs.read(other),
{
    reveal(RegFile::read);
    reveal(RegFile::write);
}

/// The high byte of a 16-bit value.
fn high_byte(slot: u16) -> (r: u16)
    ensures
        r == slot / 256,
{
    assert(slot >> 8 == slot / 256) by (bit_vector);
    slot >> 8
}

/// The low byte of a 16-bit value.
fn low_byte(slot: u16) -> (r: u16)
    ensures
        r == slot % 256,
{
    assert(slot & 0x00FF == slot % 256) by (bit_vector);
    slot & 0x00FF
}

/// `slot` with its high byte replaced by the low eight bits of `value`.
fn with_high_byte(slot: u16, value: u16) -> (r: u16)
    ensures
        r == (value % 256) * 256 + slot % 256,
{
    assert((slot & 0x00FF) | ((value & 0x00FF) << 8) == (value % 256) * 256 + slot % 256)
        by (bit_vector);
    (slot & 0x00FF) | ((value & 0x00FF) << 8)
}

/// `slot` with its low byte replaced by the low eight bits of `value`.
fn with_low_byte(slot: u16, value: u16) -> (r: u16)
    ensures
        r == (slot / 256) * 256 + value % 256,
{
    assert((slot & 0xFF00) | (value & 0x00FF) == (slot / 256) * 256 + value % 256)
        by (bit_vector);
    (slot & 0xFF00) | (value & 0x00FF)
}

/// The register file of the processor.
#[derive(Clone, Copy, Debug)]
pub struct GBRegisterSet {
    af: u16,
    bc: u16,
    de: u16,
    hl: u16,
}

impl View for GBRegisterSet {
    type V = RegFile;

    closed spec fn view(&self) -> RegFile {
        RegFile { af: self.af, bc: self.bc, de: self.de, hl: self.hl }
    }
}

impl GBRegisterSet {
    /// A register file with every slot at zero.
    pub fn new() -> (regs: GBRegisterSet)
        ensures
            regs@ == (RegFile { af: 0, bc: 0, de: 0, hl: 0 }),
    {
        GBRegisterSet { af: 0, bc: 0, de: 0, hl: 0 }
    }

    fn slot_get(&self, slot: Reg) -> (r: u16)
        ensures
            r == self@.slot_value(slot),
    {
        match slot.origin().0 {
            Reg::AF => self.af,
            Reg::BC => self.bc,
            Reg::DE => self.de,
            _ => self.hl,
        }
    }

    fn slot_put(&mut self, slot: Reg, value: u16)
        ensures
            final(self)@ == old(self)@.with_slot(slot, value),
    {
        match slot.origin().0 {
            Reg::AF => self.af = value,
            Reg::BC => self.bc = value,
            Reg::DE => self.de = value,
            _ => self.hl = value,
        }
    }

    /// Reads a register: a slot in full, a half as a number below 256.
    pub fn get(&self, reg: Reg) -> (value: u16)
        ensures
            value == self@.read(reg),
            !reg.is_wide() ==> value < 256,
    {
        proof {
            reveal(RegFile::read);
        }
        let (slot, part) = reg.origin();
        let data = self.slot_get(slot);
        match part {
            Part::Whole => data,
            Part::High => high_byte(data),
            Part::Low => low_byte(data),
        }
    }

    /// Writes a register. A slot is replaced; a half takes the low eight
    /// bits of `data` and the other half of its slot stays.
    pub fn put(&mut self, reg: Reg, data: u16)
        ensures
            final(self)@ == old(self)@.write(reg, data),
    {
        proof {
            reveal(RegFile::read);
            reveal(RegFile::write);
        }
        let (slot, part) = reg.origin();
        let current = self.slot_get(slot);
        let next = match part {
            Part::Whole => data,
            Part::High => with_high_byte(current, data),
            Part::Low => with_low_byte(current, data),
        };
        self.slot_put(slot, next);
    }

    /// Adds one to a register, wrapping silently.
    pub fn inc(&mut self, reg: Reg)
        ensures
            final(self)@ == old(self)@.inc(reg),
    {
        let value = self.get(reg);
        self.put(reg, value.wrapping_add(1));
    }

    /// Takes one from a register, wrapping silently.
    pub fn dec(&mut self, reg: Reg)
        ensures
            final(self)@ == old(self)@.dec(reg),
    {
        let value = self.get(reg);
        self.put(reg, value.wrapping_sub(1));
    }
}

} // verus!
