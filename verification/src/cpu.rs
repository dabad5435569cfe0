//! The processor: program counter, stack pointer, register file and memory,
//! and the handlers of the instructions.

use crate::bits::{
    assign_bit, bit_at, flags_byte, pack_flags, test_bit, with_bit, zero_flag_only, CARRY,
    HALF_CARRY, SUBTRACT, ZERO,
};
use crate::dispatch::{base_cost, base_instr, extended_cost, extended_instr};
use crate::isa::{decode_cb, extended_cycles, CbInstr, Cond, GBData, Instr, Operand};
use crate::mem::GBMem;
use crate::regset::{wrap16, wrap8, GBRegisterSet, Reg, RegFile};
use crate::semantics;
use crate::semantics::{Machine, INTERRUPT_ENABLE, INTERRUPT_REQUEST, SCANLINE};
use vstd::prelude::*;

verus! {

/// The processor with its memory. Its view is the `Machine` that the
/// functions of `semantics` speak of.
pub struct GBCpu {
    sp: u16,
    pc: u16,
    mem: GBMem,
    registers: GBRegisterSet,
    stop_flag: bool,
    last_op_cycles: usize,
    interrupts: bool,
}

impl View for GBCpu {
    type V = Machine;

    closed spec fn view(&self) -> Machine {
        Machine {
            regs: self.registers@,
            sp: self.sp,
            pc: self.pc,
            mem: self.mem@,
            stopped: self.stop_flag,
            interrupts: self.interrupts,
            cycles: self.last_op_cycles as nat,
        }
    }
}

/// The low byte of a 16-bit value.
fn low8(v: u16) -> (r: u8)
    ensures
        r == wrap8(v as int),
        r == v % 256,
{
    assert(v & 0x00FF == v % 256) by (bit_vector);
    (v & 0x00FF) as u8
}

/// The high byte of a 16-bit value.
fn high8(v: u16) -> (r: u8)
    ensures
        r == v / 256,
{
    assert(v >> 8 == v / 256) by (bit_vector);
    (v >> 8) as u8
}

/// The 16-bit value made of a low and a high byte.
fn word(low: u8, high: u8) -> (r: u16)
    ensures
        r == low + 256 * high,
{
    assert((low as u16) | ((high as u16) << 8) == low + 256 * high) by (bit_vector);
    (low as u16) | ((high as u16) << 8)
}

/// The low twelve bits of a 16-bit value.
fn low12(v: u16) -> (r: u16)
    ensures
        r == v % 4096,
{
    assert(v & 0x0FFF == v % 4096) by (bit_vector);
    v & 0x0FFF
}

/// The number that a carry adds.
fn carry_value(carry: bool) -> (r: u8)
    ensures
        r == (if carry {
            1u8
        } else {
            0u8
        }),
{
    if carry {
        1
    } else {
        0
    }
}

/// Rotates a byte left: bit 7 comes back in at bit 0.
fn rotate_left(x: u8) -> (r: (u8, bool))
    ensures
        r.0 == semantics::rlc(x).value,
        r.1 == semantics::rlc(x).carry,
{
    assert((x << 1) | (x >> 7) == (2 * x + x / 128) % 256) by (bit_vector);
    ((x << 1) | (x >> 7), test_bit(x, 0))
}

/// Rotates a byte left through the carry.
fn rotate_left_through(x: u8, carry_in: bool) -> (r: (u8, bool))
    ensures
        r.0 == semantics::rl(x, carry_in).value,
        r.1 == semantics::rl(x, carry_in).carry,
{
    let c = carry_value(carry_in);
    assert((x << 1) | c == (2 * x + c) % 256) by (bit_vector)
        requires
            c <= 1,
    ;
    ((x << 1) | c, test_bit(x, 0))
}

/// Rotates a byte right: bit 0 comes back in at bit 7.
fn rotate_right(x: u8) -> (r: (u8, bool))
    ensures
        r.0 == semantics::rrc(x).value,
        r.1 == semantics::rrc(x).carry,
{
    assert((x >> 1) | (x << 7) == x / 2 + 128 * (x % 2)) by (bit_vector);
    ((x >> 1) | (x << 7), test_bit(x, 7))
}

/// Rotates a byte right through the carry.
fn rotate_right_through(x: u8, carry_in: bool) -> (r: (u8, bool))
    ensures
        r.0 == semantics::rr(x, carry_in).value,
        r.1 == semantics::rr(x, carry_in).carry,
{
    let c = carry_value(carry_in);
    assert((x >> 1) | (c << 7) == x / 2 + 128 * c) by (bit_vector)
        requires
            c <= 1,
    ;
    ((x >> 1) | (c << 7), test_bit(x, 7))
}

/// Shifts a byte left.
fn shift_left(x: u8) -> (r: (u8, bool))
    ensures
        r.0 == semantics::sla(x).value,
        r.1 == semantics::sla(x).carry,
{
    assert(x << 1 == (2 * x) % 256) by (bit_vector);
    (x << 1, test_bit(x, 0))
}

/// Shifts a byte right and keeps its bit 7.
fn shift_right_signed(x: u8) -> (r: (u8, bool))
    ensures
        r.0 == semantics::sra(x).value,
        r.1 == semantics::sra(x).carry,
{
    assert((x >> 1) | (x & 0x80) == x / 2 + (if x >= 128 {
        128int
    } else {
        0
    })) by (bit_vector);
    ((x >> 1) | (x & 0x80), test_bit(x, 7))
}

/// Shifts a byte right.
fn shift_right(x: u8) -> (r: (u8, bool))
    ensures
        r.0 == semantics::srl(x).value,
        r.1 == semantics::srl(x).carry,
{
    assert(x >> 1 == x / 2) by (bit_vector);
    (x >> 1, test_bit(x, 7))
}

/// Exchanges the nibbles of a byte.
fn swap_nibbles(x: u8) -> (r: (u8, bool))
    ensures
        r.0 == semantics::swap(x).value,
        r.1 == semantics::swap(x).carry,
{
    assert((x << 4) | (x >> 4) == (x % 16) * 16 + x / 16) by (bit_vector);
    ((x << 4) | (x >> 4), false)
}

/// A byte one higher, and the flags that follow from the step.
fn increment(f: u8, x: u8) -> (r: (u8, u8))
    ensures
        r.0 == wrap8(x + 1),
        r.1 == semantics::inc_flags(f, x),
{
    // Flags affected:
    // Z - Set if result is zero. (0)
    // N - Reset. (1)
    // H - Set if carry from bit 3. (2)
    // C - Not affected. (3)
    let half_carry = nibble(x) + 0x01 > 0x0F;
    let value = x.wrapping_add(1);
    (value, pack_flags(f, value == 0x0, false, half_carry, test_bit(f, CARRY)))
}

/// A byte one lower, and the flags that follow from the step.
fn decrement(f: u8, x: u8) -> (r: (u8, u8))
    ensures
        r.0 == wrap8(x - 1),
        r.1 == semantics::dec_flags(f, x),
{
    // Flags affected:
    // Z - Set if result is zero. (0)
    // N - Set. (1)
    // H - Set if borrow from bit 4. (2)
    // C - Not affected. (3)
    let half_carry = nibble(x) < 0x01;
    let value = x.wrapping_sub(1);
    (value, pack_flags(f, value == 0x0, true, half_carry, test_bit(f, CARRY)))
}

/// The low nibble of a byte.
fn nibble(x: u8) -> (r: u8)
    ensures
        r == x % 16,
{
    assert(x & 0x0F == x % 16) by (bit_vector);
    x & 0x0F
}

/// A signed byte as 16 bits in two's complement.
fn extend(v: i8) -> (r: u16)
    ensures
        r == semantics::sign_extend(v),
{
    if v >= 0 {
        v as u16
    } else {
        (0x10000i32 + v as i32) as u16
    }
}

/// A byte read as a signed number.
fn as_signed(b: u8) -> (r: i8)
    ensures
        r == semantics::signed(b),
{
    if b < 128 {
        b as i8
    } else {
        (b as i16 - 256) as i8
    }
}

impl GBCpu {
    /// A processor at power-on, with `mem` as its memory: every register,
    /// the stack pointer and the program counter are zero.
    pub fn new(mem: GBMem) -> (cpu: GBCpu)
        ensures
            cpu@ == (Machine {
                regs: RegFile { af: 0, bc: 0, de: 0, hl: 0 },
                sp: 0,
                pc: 0,
                mem: mem@,
                stopped: false,
                interrupts: false,
                cycles: 0,
            }),
            cpu@.wf(),
    {
        proof {
            use_type_invariant(&mem);
        }
        GBCpu {
            sp: 0x0,
            pc: 0x0,
            mem: mem,
            registers: GBRegisterSet::new(),
            stop_flag: false,
            last_op_cycles: 0,
            interrupts: false,
        }
    }

    /// The stack pointer.
    pub fn get_sp(&self) -> (sp: u16)
        ensures
            sp == self@.sp,
    {
        self.sp
    }

    /// The program counter.
    pub fn get_pc(&self) -> (pc: u16)
        ensures
            pc == self@.pc,
    {
        self.pc
    }

    /// The memory.
    pub fn get_mem_ref<'a>(&'a self) -> (mem: &'a GBMem)
        ensures
            mem@ == self@.mem,
            self@.wf(),
    {
        proof {
            use_type_invariant(&self.mem);
        }
        &self.mem
    }

    /// The memory, for the caller to change; nothing else of the processor
    /// changes with it.
    pub fn get_mem_mut<'a>(&'a mut self) -> (mem: &'a mut GBMem)
        ensures
            mem@ == old(self)@.mem,
            final(self)@ == (Machine { mem: final(mem)@, ..old(self)@ }),
    {
        &mut self.mem
    }

    /// The register file.
    pub fn get_regset_ref<'a>(&'a self) -> (regs: &'a GBRegisterSet)
        ensures
            regs@ == self@.regs,
    {
        &self.registers
    }

    /// The cost in clock ticks of the instruction executed last.
    pub fn get_last_op_cycles(&self) -> (cycles: usize)
        ensures
            cycles == self@.cycles,
            self@.wf(),
    {
        proof {
            use_type_invariant(&self.mem);
        }
        self.last_op_cycles
    }

    /// Whether the processor is stopped.
    pub fn is_stopped(&self) -> (stopped: bool)
        ensures
            stopped == self@.stopped,
    {
        self.stop_flag
    }

    /// Whether the master switch of the interrupts is on.
    pub fn interrupts_on(&self) -> (on: bool)
        ensures
            on == self@.interrupts,
    {
        self.interrupts
    }

    fn read(&self, addr: u16) -> (byte: u8)
        ensures
            byte == self@.byte(addr),
    {
        self.mem.get(addr as usize)
    }

    fn write(&mut self, addr: u16, byte: u8)
        ensures
            final(self)@ == old(self)@.store(addr, byte),
    {
        self.mem.put(addr as usize, byte);
    }

    /// Whether the interrupt source `ipos` is enabled: bit `ipos` of the
    /// interrupt-enable byte, counted from the least significant.
    pub fn is_interrupt_enabled(&self, ipos: usize) -> (enabled: bool)
        requires
            ipos < 8,
        ensures
            enabled == bit_at(self@.mem[INTERRUPT_ENABLE as int], 7 - ipos),
    {
        test_bit(self.mem.get(INTERRUPT_ENABLE), 7 - ipos)
    }

    /// Enables or disables the interrupt source `ipos` and tells whether it
    /// was enabled before.
    pub fn interrupt_enable(&mut self, ipos: usize, enable: bool) -> (prev: bool)
        requires
            ipos < 8,
        ensures
            prev == bit_at(old(self)@.mem[INTERRUPT_ENABLE as int], 7 - ipos),
            final(self)@ == old(self)@.store(
                INTERRUPT_ENABLE as u16,
                with_bit(old(self)@.mem[INTERRUPT_ENABLE as int], 7 - ipos, enable) as u8,
            ),
    {
        let flags = self.mem.get(INTERRUPT_ENABLE);
        let prev = test_bit(flags, 7 - ipos);
        self.mem.put(INTERRUPT_ENABLE, assign_bit(flags, 7 - ipos, enable));
        prev
    }

    /// Raises or withdraws the request of the interrupt source `ipos` and
    /// tells whether it was requested before.
    pub fn set_interrupt_request(&mut self, ipos: usize, request: bool) -> (prev: bool)
        requires
            ipos < 8,
        ensures
            prev == bit_at(old(self)@.mem[INTERRUPT_REQUEST as int], 7 - ipos),
            final(self)@ == old(self)@.store(
                INTERRUPT_REQUEST as u16,
                with_bit(old(self)@.mem[INTERRUPT_REQUEST as int], 7 - ipos, request) as u8,
            ),
    {
        let requests = self.mem.get(INTERRUPT_REQUEST);
        let prev = test_bit(requests, 7 - ipos);
        self.mem.put(INTERRUPT_REQUEST, assign_bit(requests, 7 - ipos, request));
        prev
    }

    /// Writes the scanline counter.
    pub fn set_memreg_ly(&mut self, line: u8)
        ensures
            final(self)@ == old(self)@.store(SCANLINE as u16, line),
    {
        self.mem.put(SCANLINE, line);
    }

    fn stack_push(&mut self, value: u16)
        ensures
            final(self)@ == old(self)@.push16(value),
    {
        // most significant part
        self.sp = self.sp.wrapping_sub(1);
        self.write(self.sp, high8(value));
        // least significant part
        self.sp = self.sp.wrapping_sub(1);
        self.write(self.sp, low8(value));
    }

    fn stack_pop(&mut self) -> (value: u16)
        ensures
            value == old(self)@.top16(),
            final(self)@ == old(self)@.drop16(),
    {
        // least significant part
        let low = self.read(self.sp);
        self.sp = self.sp.wrapping_add(1);
        // most significant part
        let high = self.read(self.sp);
        self.sp = self.sp.wrapping_add(1);
        word(low, high)
    }

    /// The two bytes at the program counter, low byte first.
    fn immediate16(&self) -> (value: u16)
        ensures
            value == self@.imm16(),
    {
        let low = self.read(self.pc);
        let high = self.read(self.pc.wrapping_add(1));
        word(low, high)
    }

    /// Reads the immediate bytes of an operand at the program counter, which
    /// stays where it is.
    pub fn arg_parse(&self, arg: Operand) -> (data: GBData)
        ensures
            data == semantics::parse(self@, arg),
    {
        match arg {
            Operand::SP => GBData::SP,
            Operand::PC => GBData::PC,
            Operand::R8 => GBData::R8(as_signed(self.read(self.pc))),
            Operand::D8 => GBData::D8(self.read(self.pc)),
            Operand::D16 => GBData::D16(self.immediate16()),
            Operand::A8 => {
                let byte = self.read(self.pc) as u16;
                GBData::ADDRESS { addr: byte + 0xFF00, size: 1 }
            },
            Operand::A16 => GBData::ADDRESS { addr: self.immediate16(), size: 2 },
            Operand::Reg { name, inc, dec, addr } => GBData::REG { name, inc, dec, addr },
        }
    }

    /// Resolves an operand to its value. The program counter passes the
    /// operand's immediate bytes, and a register with `inc` or `dec` moves
    /// after it was read.
    pub fn data_parse(&mut self, arg: &GBData) -> (value: u16)
        ensures
            (value, final(self)@) == semantics::resolve(old(self)@, *arg),
    {
        match *arg {
            GBData::R8(v) => {
                self.pc = self.pc.wrapping_add(1);
                extend(v)
            },
            GBData::D8(v) => {
                self.pc = self.pc.wrapping_add(1);
                v as u16
            },
            GBData::D16(v) => {
                self.pc = self.pc.wrapping_add(2);
                v
            },
            GBData::REG { name, inc, dec, addr } => {
                let mut value = self.registers.get(name);
                if addr {
                    value = self.read(value) as u16;
                }
                if inc {
                    self.registers.inc(name);
                }
                if dec {
                    self.registers.dec(name);
                }
                value
            },
            GBData::ADDRESS { addr, size } => {
                self.pc = self.pc.wrapping_add(size);
                self.read(addr) as u16
            },
            GBData::SP => self.sp,
            GBData::PC => self.pc,
        }
    }

    /// The accumulator.
    fn accumulator(&self) -> (a: u8)
        ensures
            a == self@.a(),
    {
        self.registers.get(Reg::A) as u8
    }

    /// The flags byte.
    fn flags(&self) -> (f: u8)
        ensures
            f == self@.f(),
    {
        self.registers.get(Reg::F) as u8
    }

    fn set_accumulator(&mut self, a: u8)
        ensures
            final(self)@ == old(self)@.set_a(a),
    {
        self.registers.put(Reg::A, a as u16);
    }

    fn set_flags(&mut self, f: u8)
        ensures
            final(self)@ == old(self)@.set_f(f),
    {
        self.registers.put(Reg::F, f as u16);
    }

    /// Moves the program counter on by `n`, wrapping silently.
    fn advance(&mut self, n: u16)
        ensures
            final(self)@ == old(self)@.skip(n as int),
    {
        self.pc = self.pc.wrapping_add(n);
    }

    /// Whether a condition holds of the flags as they are now.
    fn condition(&self, c: Cond) -> (taken: bool)
        ensures
            taken == semantics::holds(self@, c),
    {
        // 0	1	2	3
        // Z	N	H	C
        let flags = self.flags();
        match c {
            Cond::NZ => !test_bit(flags, ZERO),
            Cond::Z => test_bit(flags, ZERO),
            Cond::NC => !test_bit(flags, CARRY),
            Cond::C => test_bit(flags, CARRY),
            Cond::Always => true,
        }
    }

    fn op_nop(&mut self)
        ensures
            final(self)@ == old(self)@.skip(1),
    {
        self.advance(1);
    }

    /// An opcode without behaviour: it is stepped over.
    fn op_none(&mut self)
        ensures
            final(self)@ == old(self)@.skip(1),
    {
        self.advance(1);
    }

    /// `STOP`: the byte after the opcode belongs to the instruction.
    fn op_stop(&mut self)
        ensures
            final(self)@ == (Machine { stopped: true, ..old(self)@.skip(2) }),
    {
        self.advance(2);
        self.stop_flag = true;
    }

    fn op_halt(&mut self)
        ensures
            final(self)@ == (Machine { stopped: true, ..old(self)@.skip(1) }),
    {
        self.advance(1);
        self.stop_flag = true;
    }

    fn op_di(&mut self)
        ensures
            final(self)@ == (Machine { interrupts: false, ..old(self)@.skip(1) }),
    {
        self.advance(1);
        self.interrupts = false;
    }

    fn op_ei(&mut self)
        ensures
            final(self)@ == (Machine { interrupts: true, ..old(self)@.skip(1) }),
    {
        self.advance(1);
        self.interrupts = true;
    }

    fn op_ld(&mut self, dst: Operand, src: Operand)
        ensures
            final(self)@ == semantics::ld(old(self)@, dst, src),
    {
        proof {
            reveal(semantics::ld);
        }
        self.advance(1);
        // match destination
        match self.arg_parse(dst) {
            GBData::SP => {
                let argp = self.arg_parse(src);
                let data = self.data_parse(&argp);
                self.sp = data;
            },
            GBData::REG { name, inc, dec, addr } => {
                let argp = self.arg_parse(src);
                let data = self.data_parse(&argp);
                if addr {
                    let at = self.registers.get(name);
                    self.write(at, low8(data));
                } else {
                    self.registers.put(name, data);
                }
                if inc {
                    self.registers.inc(name);
                }
                if dec {
                    self.registers.dec(name);
                }
            },
            GBData::ADDRESS { addr, size } => {
                // move the program counter over the address that was just read
                self.advance(size);
                let argp = self.arg_parse(src);
                let data = self.data_parse(&argp);
                self.write(addr, low8(data));
            },
            _ => {},
        }
    }

    fn op_ldh(&mut self, dst: Operand, src: Operand)
        ensures
            final(self)@ == semantics::ldh(old(self)@, dst, src),
    {
        proof {
            reveal(semantics::ldh);
        }
        self.advance(1);
        // match destination
        match self.arg_parse(dst) {
            GBData::ADDRESS { addr, size } => {
                self.advance(size);
                let argp = self.arg_parse(src);
                let data = self.data_parse(&argp);
                self.write(addr, low8(data));
            },
            GBData::REG { name, inc, dec, addr } => {
                let argp = self.arg_parse(src);
                let data = self.data_parse(&argp);
                self.registers.put(name, data);
            },
            _ => {},
        }
    }

    /// Reads the signed offset at the program counter, steps over it, and
    /// gives the stack pointer moved by it together with the flags of that
    /// addition.
    fn stack_offset(&mut self) -> (r: (u16, u8))
        ensures
            final(self)@ == old(self)@.skip(1),
            r.0 == wrap16(
                old(self)@.sp + semantics::sign_extend(semantics::signed(old(self)@.imm8())),
            ),
            r.1 == semantics::offset_flags(old(self)@.f(), old(self)@.sp, old(self)@.imm8()),
    {
        let e = self.read(self.pc);
        self.advance(1);
        let low = low8(self.sp);
        let half_carry = nibble(low) + nibble(e) > 0x0F;
        let carry = low as u16 + e as u16 > 0xFF;
        let f = pack_flags(self.flags(), false, false, half_carry, carry);
        (self.sp.wrapping_add(extend(as_signed(e))), f)
    }

    fn op_ld_hl_sp(&mut self)
        ensures
            final(self)@ == semantics::ld_hl_sp(old(self)@),
    {
        proof {
            reveal(semantics::ld_hl_sp);
        }
        self.advance(1);
        let (value, f) = self.stack_offset();
        self.registers.put(Reg::HL, value);
        self.set_flags(f);
    }

    fn op_add_sp(&mut self)
        ensures
            final(self)@ == semantics::add_sp(old(self)@),
    {
        proof {
            reveal(semantics::add_sp);
        }
        self.advance(1);
        let (value, f) = self.stack_offset();
        self.sp = value;
        self.set_flags(f);
    }

    fn op_push(&mut self, r: Reg)
        ensures
            final(self)@ == semantics::push(old(self)@, r),
    {
        proof {
            reveal(semantics::push);
        }
        self.advance(1);
        let value = self.registers.get(r);
        self.stack_push(value);
    }

    fn op_pop(&mut self, r: Reg)
        ensures
            final(self)@ == semantics::pop(old(self)@, r),
    {
        proof {
            reveal(semantics::pop);
        }
        self.advance(1);
        let value = self.stack_pop();
        self.registers.put(r, value);
    }

    fn op_inc(&mut self, target: Operand)
        ensures
            final(self)@ == semantics::inc(old(self)@, target),
    {
        proof {
            reveal(semantics::inc);
        }
        self.advance(1);
        let flags = self.flags();
        match self.arg_parse(target) {
            GBData::REG { name, inc, dec, addr } => {
                if addr {
                    let reg_value = self.registers.get(name);
                    let (mem_value, f) = increment(flags, self.read(reg_value));
                    self.write(reg_value, mem_value);
                    self.set_flags(f);
                } else if name.wide() {
                    self.registers.inc(name);
                } else {
                    let (reg_value, f) = increment(flags, self.registers.get(name) as u8);
                    self.registers.put(name, reg_value as u16);
                    self.set_flags(f);
                }
            },
            GBData::SP => {
                self.sp = self.sp.wrapping_add(1);
            },
            _ => {},
        }
    }

    fn op_dec(&mut self, target: Operand)
        ensures
            final(self)@ == semantics::dec(old(self)@, target),
    {
        proof {
            reveal(semantics::dec);
        }
        self.advance(1);
        let flags = self.flags();
        match self.arg_parse(target) {
            GBData::REG { name, inc, dec, addr } => {
                if addr {
                    let reg_value = self.registers.get(name);
                    let (mem_value, f) = decrement(flags, self.read(reg_value));
                    self.write(reg_value, mem_value);
                    self.set_flags(f);
                } else if name.wide() {
                    self.registers.dec(name);
                } else {
                    let (reg_value, f) = decrement(flags, self.registers.get(name) as u8);
                    self.registers.put(name, reg_value as u16);
                    self.set_flags(f);
                }
            },
            GBData::SP => {
                self.sp = self.sp.wrapping_sub(1);
            },
            _ => {},
        }
    }

    /// Steps over the opcode and resolves the operand of an operation on the
    /// accumulator: the accumulator as it was before, and the operand's low
    /// byte.
    fn alu_operands(&mut self, src: Operand) -> (r: (u8, u8))
        ensures
            r.0 == old(self)@.a(),
            r.1 == wrap8(semantics::fetch(old(self)@.skip(1), src).0 as int),
            final(self)@ == semantics::fetch(old(self)@.skip(1), src).1,
    {
        self.advance(1);
        let reg_a = self.accumulator();
        let argp = self.arg_parse(src);
        let data = self.data_parse(&argp);
        (reg_a, low8(data))
    }

    /// Adds with the carry `carry_in` and sets the flags.
    fn add_to_accumulator(&mut self, a: u8, v: u8, carry_in: bool)
        ensures
            final(self)@ == old(self)@.set_a(
                semantics::add8(a, old(self)@.f(), v, carry_in).a,
            ).set_f(semantics::add8(a, old(self)@.f(), v, carry_in).f),
    {
        // Flags affected:
        // Z - Set if result is zero.
        // N - Reset.
        // H - Set if carry from bit 3.
        // C - Set if carry from bit 7.
        let f = self.flags();
        let c = carry_value(carry_in);
        let sum = a as u16 + v as u16 + c as u16;
        let value = low8(sum);
        let half_carry = nibble(a) + nibble(v) + c > 0x0F;
        self.set_accumulator(value);
        self.set_flags(pack_flags(f, value == 0x0, false, half_carry, sum > 0xFF));
    }

    /// The difference `a - v - carry_in` and the flags of that subtraction.
    fn subtract(&self, a: u8, v: u8, carry_in: bool) -> (r: (u8, u8))
        ensures
            r.0 == semantics::sub8(a, self@.f(), v, carry_in).a,
            r.1 == semantics::sub8(a, self@.f(), v, carry_in).f,
    {
        // Flags affected:
        // Z - Set if result is zero.
        // N - Set.
        // H - Set if borrow from bit 4.
        // C - Set if borrow.
        let f = self.flags();
        let c = carry_value(carry_in);
        let value = a.wrapping_sub(v).wrapping_sub(c);
        let half_carry = nibble(a) < nibble(v) + c;
        let carry = (a as u16) < v as u16 + c as u16;
        (value, pack_flags(f, value == 0x0, true, half_carry, carry))
    }

    fn op_add(&mut self, src: Operand)
        ensures
            final(self)@ == semantics::alu(old(self)@, Instr::Add(src), src),
    {
        proof {
            reveal(semantics::alu);
        }
        let (reg_a, data) = self.alu_operands(src);
        self.add_to_accumulator(reg_a, data, false);
    }

    fn op_adc(&mut self, src: Operand)
        ensures
            final(self)@ == semantics::alu(old(self)@, Instr::Adc(src), src),
    {
        proof {
            reveal(semantics::alu);
        }
        let (reg_a, data) = self.alu_operands(src);
        let carry = test_bit(self.flags(), CARRY);
        self.add_to_accumulator(reg_a, data, carry);
    }

    fn op_sub(&mut self, src: Operand)
        ensures
            final(self)@ == semantics::alu(old(self)@, Instr::Sub(src), src),
    {
        proof {
            reveal(semantics::alu);
        }
        let (reg_a, data) = self.alu_operands(src);
        let (value, f) = self.subtract(reg_a, data, false);
        self.set_accumulator(value);
        self.set_flags(f);
    }

    fn op_sbc(&mut self, src: Operand)
        ensures
            final(self)@ == semantics::alu(old(self)@, Instr::Sbc(src), src),
    {
        proof {
            reveal(semantics::alu);
        }
        let (reg_a, data) = self.alu_operands(src);
        let carry = test_bit(self.flags(), CARRY);
        let (value, f) = self.subtract(reg_a, data, carry);
        self.set_accumulator(value);
        self.set_flags(f);
    }

    fn op_and(&mut self, src: Operand)
        ensures
            final(self)@ == semantics::alu(old(self)@, Instr::And(src), src),
    {
        proof {
            reveal(semantics::alu);
        }
        // Flags affected:
        // Z - Set if result is zero.
        // N - Reset.
        // H - Set.
        // C - Reset.
        let (reg_a, data) = self.alu_operands(src);
        let f = self.flags();
        let value = reg_a & data;
        self.set_accumulator(value);
        self.set_flags(pack_flags(f, value == 0x0, false, true, false));
    }

    fn op_or(&mut self, src: Operand)
        ensures
            final(self)@ == semantics::alu(old(self)@, Instr::Or(src), src),
    {
        proof {
            reveal(semantics::alu);
        }
        // Flags affected:
        // Z - Set if result is zero.
        // N - Reset.
        // H - Reset.
        // C - Reset.
        let (reg_a, data) = self.alu_operands(src);
        let f = self.flags();
        let value = reg_a | data;
        self.set_accumulator(value);
        self.set_flags(pack_flags(f, value == 0x0, false, false, false));
    }

    fn op_xor(&mut self, src: Operand)
        ensures
            final(self)@ == semantics::alu(old(self)@, Instr::Xor(src), src),
    {
        proof {
            reveal(semantics::alu);
        }
        // Flags affected:
        // Z - Set if result is zero.
        // N - Reset.
        // H - Reset.
        // C - Reset.
        let (reg_a, data) = self.alu_operands(src);
        // THE XOR
        let value = reg_a ^ data;
        self.set_accumulator(value);
        self.set_flags(zero_flag_only(value == 0x0));
    }

    fn op_cp(&mut self, src: Operand)
        ensures
            final(self)@ == semantics::alu(old(self)@, Instr::Cp(src), src),
    {
        proof {
            reveal(semantics::alu);
        }
        // Flags affected:
        // Z - Set if result is zero. (Set if A = n.) (0)
        // N - Set. (1)
        // H - Set if borrow from bit 4. (2)
        // C - Set if borrow. (Set if A < n.) (3)
        let (reg_a, data) = self.alu_operands(src);
        let f = self.flags();
        let half_carry = nibble(reg_a) < nibble(data);
        self.set_flags(pack_flags(f, reg_a == data, true, half_carry, reg_a < data));
    }

    fn op_add_hl(&mut self, src: Operand)
        ensures
            final(self)@ == semantics::add_hl(old(self)@, src),
    {
        proof {
            reveal(semantics::add_hl);
        }
        // Flags affected:
        // Z - Not affected.
        // N - Reset.
        // H - Set if carry from bit 11.
        // C - Set if carry from bit 15.
        self.advance(1);
        let argp = self.arg_parse(src);
        let data = self.data_parse(&argp);
        let hl = self.registers.get(Reg::HL);
        let f = self.flags();
        let half_carry = low12(hl) + low12(data) > 0x0FFF;
        let carry = hl as u32 + data as u32 > 0xFFFF;
        self.registers.put(Reg::HL, hl.wrapping_add(data));
        self.set_flags(pack_flags(f, test_bit(f, ZERO), false, half_carry, carry));
    }

    /// Steps over the opcode of a rotation of the accumulator, stores its
    /// result and sets the flags: only Carry can be set afterwards.
    fn finish_rotate_a(&mut self, r: (u8, bool))
        ensures
            final(self)@ == semantics::rotate_a(
                old(self)@,
                semantics::Shifted { value: r.0, carry: r.1 },
            ),
    {
        proof {
            reveal(semantics::rotate_a);
        }
        self.advance(1);
        let f = self.flags();
        self.set_flags(pack_flags(f, false, false, false, r.1));
        self.set_accumulator(r.0);
    }

    fn op_rlca(&mut self)
        ensures
            final(self)@ == semantics::rotate_a(old(self)@, semantics::rlc(old(self)@.a())),
    {
        let r = rotate_left(self.accumulator());
        self.finish_rotate_a(r);
    }

    fn op_rla(&mut self)
        ensures
            final(self)@ == semantics::rotate_a(
                old(self)@,
                semantics::rl(old(self)@.a(), old(self)@.carry()),
            ),
    {
        // Flags affected:
        // Z - Reset.
        // N - Reset. (1)
        // H - Reset. (2)
        // C - Contains old bit 7 (0 in BitVec) data. (3)
        let carry = test_bit(self.flags(), CARRY);
        let r = rotate_left_through(self.accumulator(), carry);
        self.finish_rotate_a(r);
    }

    fn op_rrca(&mut self)
        ensures
            final(self)@ == semantics::rotate_a(old(self)@, semantics::rrc(old(self)@.a())),
    {
        let r = rotate_right(self.accumulator());
        self.finish_rotate_a(r);
    }

    fn op_rra(&mut self)
        ensures
            final(self)@ == semantics::rotate_a(
                old(self)@,
                semantics::rr(old(self)@.a(), old(self)@.carry()),
            ),
    {
        let carry = test_bit(self.flags(), CARRY);
        let r = rotate_right_through(self.accumulator(), carry);
        self.finish_rotate_a(r);
    }

    fn op_daa(&mut self)
        ensures
            final(self)@ == semantics::daa(old(self)@),
    {
        proof {
            reveal(semantics::daa);
        }
        // Flags affected:
        // Z - Set if result is zero.
        // N - Not affected.
        // H - Reset.
        // C - Set if the high digit was adjusted.
        self.advance(1);
        let a = self.accumulator();
        let f = self.flags();
        let subtract = test_bit(f, SUBTRACT);
        let high = test_bit(f, CARRY) || (!subtract && a > 0x99);
        let low = test_bit(f, HALF_CARRY) || (!subtract && nibble(a) > 0x09);
        let mut fix: u8 = 0;
        if high {
            fix = fix + 0x60;
        }
        if low {
            fix = fix + 0x06;
        }
        let value = if subtract {
            a.wrapping_sub(fix)
        } else {
            a.wrapping_add(fix)
        };
        self.set_accumulator(value);
        self.set_flags(pack_flags(f, value == 0x0, subtract, false, high));
    }

    fn op_cpl(&mut self)
        ensures
            final(self)@ == semantics::cpl(old(self)@),
    {
        proof {
            reveal(semantics::cpl);
        }
        self.advance(1);
        let a = self.accumulator();
        let f = self.flags();
        self.set_accumulator(0xFF - a);
        self.set_flags(pack_flags(f, test_bit(f, ZERO), true, true, test_bit(f, CARRY)));
    }

    fn op_scf(&mut self)
        ensures
            final(self)@ == semantics::scf(old(self)@),
    {
        proof {
            reveal(semantics::scf);
        }
        self.advance(1);
        let f = self.flags();
        self.set_flags(pack_flags(f, test_bit(f, ZERO), false, false, true));
    }

    fn op_ccf(&mut self)
        ensures
            final(self)@ == semantics::ccf(old(self)@),
    {
        proof {
            reveal(semantics::ccf);
        }
        self.advance(1);
        let f = self.flags();
        self.set_flags(pack_flags(f, test_bit(f, ZERO), false, false, !test_bit(f, CARRY)));
    }

    fn op_jp(&mut self, c: Cond, target: Operand)
        ensures
            final(self)@ == semantics::jp(old(self)@, c, target),
    {
        proof {
            reveal(semantics::jp);
        }
        self.advance(1);
        let condition = self.condition(c);
        let destination = {
            let argp = self.arg_parse(target);
            self.data_parse(&argp)
        };
        if condition {
            self.pc = destination;
        }
    }

    fn op_jr(&mut self, c: Cond, offset: Operand)
        ensures
            final(self)@ == semantics::jr(old(self)@, c, offset),
    {
        proof {
            reveal(semantics::jr);
        }
        self.advance(1);
        let condition = self.condition(c);
        let destination = {
            let argp = self.arg_parse(offset);
            let data = self.data_parse(&argp);  // r8
            self.pc.wrapping_add(data)
        };
        if condition {
            self.pc = destination;
        }
    }

    fn op_call(&mut self, c: Cond, target: Operand)
        ensures
            final(self)@ == semantics::call(old(self)@, c, target),
    {
        proof {
            reveal(semantics::call);
        }
        self.advance(1);
        let condition = self.condition(c);
        let destination = {
            let argp = self.arg_parse(target);
            self.data_parse(&argp)
        };
        if condition {
            let v = self.pc;
            self.stack_push(v);
            self.pc = destination;
        }
    }

    fn op_ret(&mut self, c: Cond)
        ensures
            final(self)@ == semantics::ret(old(self)@, c),
    {
        proof {
            reveal(semantics::ret);
        }
        self.advance(1);
        if self.condition(c) {
            let destination = self.stack_pop();
            self.pc = destination;
        }
    }

    fn op_reti(&mut self)
        ensures
            final(self)@ == semantics::reti(old(self)@),
    {
        self.op_ret(Cond::Always);
        self.interrupts = true;
    }

    fn op_rst(&mut self, vector: u16)
        ensures
            final(self)@ == semantics::rst(old(self)@, vector),
    {
        proof {
            reveal(semantics::rst);
        }
        self.advance(1);
        let v = self.pc;
        self.stack_push(v);
        self.pc = vector;
    }

    /// The byte that an instruction of the extended table works on.
    fn read_target(&self, target: Operand) -> (x: Option<u8>)
        ensures
            x == semantics::target_byte(self@, target),
    {
        match self.arg_parse(target) {
            GBData::REG { name, inc, dec, addr } => {
                let value = self.registers.get(name);
                if addr {
                    Some(self.read(value))
                } else {
                    Some(low8(value))
                }
            },
            _ => None,
        }
    }

    /// Writes the byte that `read_target` reads.
    fn write_target(&mut self, target: Operand, value: u8)
        ensures
            final(self)@ == semantics::set_target_byte(old(self)@, target, value),
    {
        match self.arg_parse(target) {
            GBData::REG { name, inc, dec, addr } => {
                if addr {
                    let at = self.registers.get(name);
                    self.write(at, value);
                } else {
                    self.registers.put(name, value as u16);
                }
            },
            _ => {},
        }
    }

    /// Stores the result of a rotation or shift and sets the flags.
    fn finish_shift(&mut self, target: Operand, r: (u8, bool))
        ensures
            final(self)@ == semantics::set_target_byte(
                old(self)@.set_f(flags_byte(old(self)@.f(), r.0 == 0, false, false, r.1)),
                target,
                r.0,
            ),
    {
        // Flags affected:
        // Z - Set if result is zero. (0)
        // N - Reset. (1)
        // H - Reset. (2)
        // C - Contains the bit that left the byte. (3)
        let f = self.flags();
        self.set_flags(pack_flags(f, r.0 == 0x0, false, false, r.1));
        self.write_target(target, r.0);
    }

    fn op_rlc(&mut self, target: Operand)
        ensures
            final(self)@ == semantics::shift(old(self)@, CbInstr::Rlc(target), target),
    {
        proof {
            reveal(semantics::shift);
        }
        self.advance(1);
        match self.read_target(target) {
            Some(data) => self.finish_shift(target, rotate_left(data)),
            None => {},
        }
    }

    fn op_rrc(&mut self, target: Operand)
        ensures
            final(self)@ == semantics::shift(old(self)@, CbInstr::Rrc(target), target),
    {
        proof {
            reveal(semantics::shift);
        }
        self.advance(1);
        match self.read_target(target) {
            Some(data) => self.finish_shift(target, rotate_right(data)),
            None => {},
        }
    }

    fn op_rl(&mut self, target: Operand)
        ensures
            final(self)@ == semantics::shift(old(self)@, CbInstr::Rl(target), target),
    {
        proof {
            reveal(semantics::shift);
        }
        self.advance(1);
        let carry = test_bit(self.flags(), CARRY);
        match self.read_target(target) {
            Some(data) => self.finish_shift(target, rotate_left_through(data, carry)),
            None => {},
        }
    }

    fn op_rr(&mut self, target: Operand)
        ensures
            final(self)@ == semantics::shift(old(self)@, CbInstr::Rr(target), target),
    {
        proof {
            reveal(semantics::shift);
        }
        self.advance(1);
        let carry = test_bit(self.flags(), CARRY);
        match self.read_target(target) {
            Some(data) => self.finish_shift(target, rotate_right_through(data, carry)),
            None => {},
        }
    }

    fn op_sla(&mut self, target: Operand)
        ensures
            final(self)@ == semantics::shift(old(self)@, CbInstr::Sla(target), target),
    {
        proof {
            reveal(semantics::shift);
        }
        self.advance(1);
        match self.read_target(target) {
            Some(data) => self.finish_shift(target, shift_left(data)),
            None => {},
        }
    }

    fn op_sra(&mut self, target: Operand)
        ensures
            final(self)@ == semantics::shift(old(self)@, CbInstr::Sra(target), target),
    {
        proof {
            reveal(semantics::shift);
        }
        self.advance(1);
        match self.read_target(target) {
            Some(data) => self.finish_shift(target, shift_right_signed(data)),
            None => {},
        }
    }

    fn op_srl(&mut self, target: Operand)
        ensures
            final(self)@ == semantics::shift(old(self)@, CbInstr::Srl(target), target),
    {
        proof {
            reveal(semantics::shift);
        }
        self.advance(1);
        match self.read_target(target) {
            Some(data) => self.finish_shift(target, shift_right(data)),
            None => {},
        }
    }

    fn op_swap(&mut self, target: Operand)
        ensures
            final(self)@ == semantics::shift(old(self)@, CbInstr::Swap(target), target),
    {
        proof {
            reveal(semantics::shift);
        }
        self.advance(1);
        match self.read_target(target) {
            Some(data) => self.finish_shift(target, swap_nibbles(data)),
            None => {},
        }
    }

    fn op_bit(&mut self, bit: u8, src: Operand)
        requires
            bit < 8,
        ensures
            final(self)@ == semantics::bit(old(self)@, bit, src),
    {
        proof {
            reveal(semantics::bit);
        }
        // Flags affected:
        // Z - Set if bit b of register r is 0. (0)
        // N - Reset. (1)
        // H - Set. (2)
        // C - Not affected.(3)
        self.advance(1);
        let argp = self.arg_parse(src);
        let data = low8(self.data_parse(&argp));
        let flags = self.flags();
        // set Z if bit b is 0
        let zero = !test_bit(data, 7 - bit as usize);
        self.set_flags(pack_flags(flags, zero, false, true, test_bit(flags, CARRY)));
    }

    /// Gives bit `bit` of the target the value `value`.
    fn assign_target_bit(&mut self, bit: u8, target: Operand, value: bool)
        requires
            bit < 8,
        ensures
            final(self)@ == semantics::assign(old(self)@, bit, target, value),
    {
        proof {
            reveal(semantics::assign);
        }
        self.advance(1);
        match self.read_target(target) {
            Some(data) => {
                self.write_target(target, assign_bit(data, 7 - bit as usize, value));
            },
            None => {},
        }
    }

    fn op_res(&mut self, bit: u8, target: Operand)
        requires
            bit < 8,
        ensures
            final(self)@ == semantics::assign(old(self)@, bit, target, false),
    {
        self.assign_target_bit(bit, target, false);
    }

    fn op_set(&mut self, bit: u8, target: Operand)
        requires
            bit < 8,
        ensures
            final(self)@ == semantics::assign(old(self)@, bit, target, true),
    {
        self.assign_target_bit(bit, target, true);
    }

    /// The escape: the instruction is the one that the next byte selects in
    /// the extended table.
    fn op_prefix(&mut self)
        ensures
            final(self)@ == semantics::prefix(old(self)@),
    {
        proof {
            reveal(semantics::prefix);
        }
        self.advance(1);
        self.exec_next_op_cb();
    }

    /// Executes the instruction of the extended table whose opcode is at the
    /// program counter.
    fn exec_next_op_cb(&mut self)
        ensures
            final(self)@ == semantics::exec_cb(
                Machine { cycles: extended_cycles(old(self)@.imm8()), ..old(self)@ },
                decode_cb(old(self)@.imm8()),
            ),
    {
        let byte = self.read(self.pc);
        self.last_op_cycles = extended_cost(byte);
        self.execute_cb(extended_instr(byte));
    }

    /// Hands an instruction of the extended table to its handler.
    fn execute_cb(&mut self, instr: CbInstr)
        requires
            instr.wf(),
        ensures
            final(self)@ == semantics::exec_cb(old(self)@, instr),
    {
        match instr {
            CbInstr::Rlc(target) => self.op_rlc(target),
            CbInstr::Rrc(target) => self.op_rrc(target),
            CbInstr::Rl(target) => self.op_rl(target),
            CbInstr::Rr(target) => self.op_rr(target),
            CbInstr::Sla(target) => self.op_sla(target),
            CbInstr::Sra(target) => self.op_sra(target),
            CbInstr::Swap(target) => self.op_swap(target),
            CbInstr::Srl(target) => self.op_srl(target),
            CbInstr::Bit(bit, src) => self.op_bit(bit, src),
            CbInstr::Res(bit, target) => self.op_res(bit, target),
            CbInstr::SetBit(bit, target) => self.op_set(bit, target),
        }
    }

    /// Executes the instruction whose opcode is at the program counter.
    fn exec_next_op(&mut self)
        ensures
            final(self)@ == semantics::run(old(self)@),
    {
        let byte = self.read(self.pc);
        self.last_op_cycles = base_cost(byte);
        self.execute(base_instr(byte));
    }

    /// Hands an instruction of the base table to its handler.
    fn execute(&mut self, instr: Instr)
        ensures
            final(self)@ == semantics::exec(old(self)@, instr),
    {
        match instr {
            Instr::Nop => self.op_nop(),
            Instr::Unused => self.op_none(),
            Instr::Stop => self.op_stop(),
            Instr::Halt => self.op_halt(),
            Instr::Di => self.op_di(),
            Instr::Ei => self.op_ei(),
            Instr::Prefix => self.op_prefix(),
            Instr::Ld(dst, src) => self.op_ld(dst, src),
            Instr::Ldh(dst, src) => self.op_ldh(dst, src),
            Instr::LdHlSp => self.op_ld_hl_sp(),
            Instr::Push(r) => self.op_push(r),
            Instr::Pop(r) => self.op_pop(r),
            Instr::Inc(target) => self.op_inc(target),
            Instr::Dec(target) => self.op_dec(target),
            Instr::Add(src) => self.op_add(src),
            Instr::Adc(src) => self.op_adc(src),
            Instr::Sub(src) => self.op_sub(src),
            Instr::Sbc(src) => self.op_sbc(src),
            Instr::And(src) => self.op_and(src),
            Instr::Or(src) => self.op_or(src),
            Instr::Xor(src) => self.op_xor(src),
            Instr::Cp(src) => self.op_cp(src),
            Instr::AddHl(src) => self.op_add_hl(src),
            Instr::AddSp => self.op_add_sp(),
            Instr::Rlca => self.op_rlca(),
            Instr::Rla => self.op_rla(),
            Instr::Rrca => self.op_rrca(),
            Instr::Rra => self.op_rra(),
            Instr::Daa => self.op_daa(),
            Instr::Cpl => self.op_cpl(),
            Instr::Scf => self.op_scf(),
            Instr::Ccf => self.op_ccf(),
            Instr::Jp(c, target) => self.op_jp(c, target),
            Instr::Jr(c, offset) => self.op_jr(c, offset),
            Instr::Call(c, target) => self.op_call(c, target),
            Instr::Ret(c) => self.op_ret(c),
            Instr::Reti => self.op_reti(),
            Instr::Rst(vector) => self.op_rst(vector),
        }
    }

    /// One step: the instruction at the program counter is executed and its
    /// cost recorded. A stopped processor does nothing until an interrupt is
    /// both enabled and requested.
    pub fn step(&mut self)
        ensures
            final(self)@ == semantics::step(old(self)@),
            final(self)@.wf(),
    {
        proof {
            use_type_invariant(&self.mem);
        }
        if self.stop_flag {
            let enabled = self.mem.get(INTERRUPT_ENABLE);
            let requested = self.mem.get(INTERRUPT_REQUEST);
            if enabled & requested == 0 {
                return ;
            }
            self.stop_flag = false;
        }
        self.exec_next_op();
        proof {
            use_type_invariant(&self.mem);
        }
    }
}

} // verus!
