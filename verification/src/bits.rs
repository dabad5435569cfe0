//! Single bits of a byte, read and written through `bit_vec::BitVec`.
//!
//! Bit positions follow the bit vector: position 0 is the most significant
//! bit of the byte, position 7 the least significant.

use bit_vec::BitVec;
use vstd::prelude::*;

verus! {

/// `bit_vec::BitVec`, a growable vector of bits. Nothing is known of a value
/// of it but what the functions below say of `bit_seq`.
#[verifier::external_type_specification]
#[verifier::external_body]
#[verifier::reject_recursive_types(B)]
pub struct ExBitVec<B>(BitVec<B>);

/// The bits that a bit vector holds, in index order.
pub uninterp spec fn bit_seq(v: BitVec<u32>) -> Seq<bool>;

/// The value that the bit at position `pos` contributes to a byte.
pub open spec fn weight(pos: int) -> int {
    if pos == 0 {
        128
    } else if pos == 1 {
        64
    } else if pos == 2 {
        32
    } else if pos == 3 {
        16
    } else if pos == 4 {
        8
    } else if pos == 5 {
        4
    } else if pos == 6 {
        2
    } else {
        1
    }
}

/// Whether the bit at position `pos` of `byte` is set.
pub open spec fn bit_at(byte: u8, pos: int) -> bool {
    (byte as int / weight(pos)) % 2 == 1
}

/// The eight bits of a byte, most significant first.
pub open spec fn byte_bits(byte: u8) -> Seq<bool> {
    Seq::new(8, |pos: int| bit_at(byte, pos))
}

/// What the bit at `index` of `bits` adds to the byte it belongs to.
pub open spec fn bit_value(bits: Seq<bool>, index: int) -> int {
    if index < bits.len() && bits[index] {
        weight(index % 8)
    } else {
        0
    }
}

/// The byte made of the eight bits of `bits` from index `8 * k` on, most
/// significant first; bits past the end count as clear.
pub open spec fn packed_byte(bits: Seq<bool>, k: int) -> int {
    bit_value(bits, 8 * k) + bit_value(bits, 8 * k + 1) + bit_value(bits, 8 * k + 2)
        + bit_value(bits, 8 * k + 3) + bit_value(bits, 8 * k + 4) + bit_value(bits, 8 * k + 5)
        + bit_value(bits, 8 * k + 6) + bit_value(bits, 8 * k + 7)
}

/// `byte` with the bit at position `pos` replaced by `value`.
pub open spec fn with_bit(byte: u8, pos: int, value: bool) -> int {
    byte - (if bit_at(byte, pos) { weight(pos) } else { 0 })
        + (if value { weight(pos) } else { 0 })
}

/// `BitVec::from_bytes` on one byte: the vector holds the byte's eight bits,
/// most significant first.
#[verifier::external_body]
fn from_byte(byte: u8) -> (v: BitVec<u32>)
    ensures
        bit_seq(v) == byte_bits(byte),
{
    BitVec::from_bytes(&[byte])
}

/// `BitVec::from_elem`: a vector of `nbits` bits, each equal to `bit`.
#[verifier::external_body]
fn from_elem(nbits: usize, bit: bool) -> (v: BitVec<u32>)
    ensures
        bit_seq(v) == Seq::new(nbits as nat, |pos: int| bit),
{
    BitVec::from_elem(nbits, bit)
}

/// `BitVec::get`: the bit at `index`, or `None` past the end.
#[verifier::external_body]
fn get(v: &BitVec<u32>, index: usize) -> (r: Option<bool>)
    ensures
        r == (if index < bit_seq(*v).len() {
            Some(bit_seq(*v)[index as int])
        } else {
            None
        }),
{
    v.get(index)
}

/// `BitVec::set`: replaces the bit at `index` and no other. It panics past
/// the end, which `requires` leaves out.
#[verifier::external_body]
fn set(v: &mut BitVec<u32>, index: usize, value: bool)
    requires
        index < bit_seq(*old(v)).len(),
    ensures
        bit_seq(*final(v)) == bit_seq(*old(v)).update(index as int, value),
{
    v.set(index, value)
}

/// `BitVec::to_bytes`: one byte for each group of eight bits, the first bit
/// of a group being the most significant; a last, shorter group is padded
/// with clear bits.
#[verifier::external_body]
fn to_bytes(v: &BitVec<u32>) -> (bytes: Vec<u8>)
    ensures
        bytes@.len() == (bit_seq(*v).len() + 7) / 8,
        forall|k: int|
            0 <= k < bytes@.len() ==> #[trigger] bytes@[k] == packed_byte(bit_seq(*v), k),
{
    v.to_bytes()
}

/// A byte is the sum of the weights of its set bits.
pub proof fn lemma_byte_is_sum_of_bits(byte: u8)
    ensures
        packed_byte(byte_bits(byte), 0) == byte,
{
    let b = byte;
    assert(b == 128 * ((b / 128) % 2) + 64 * ((b / 64) % 2) + 32 * ((b / 32) % 2) + 16 * ((b / 16)
        % 2) + 8 * ((b / 8) % 2) + 4 * ((b / 4) % 2) + 2 * ((b / 2) % 2) + (b / 1) % 2)
        by (bit_vector);
    let bits = byte_bits(byte);
    assert forall|pos: int| 0 <= pos < 8 implies #[trigger] bit_value(bits, pos) == weight(pos)
        * ((b as int / weight(pos)) % 2) by {
        assert(bits[pos] == bit_at(b, pos));
    }
}

/// Replacing one bit of a byte changes the byte by that bit's weight.
#[verifier::rlimit(40)]
pub proof fn lemma_update_bit(byte: u8, pos: int, value: bool)
    requires
        0 <= pos < 8,
    ensures
        packed_byte(byte_bits(byte).update(pos, value), 0) == with_bit(byte, pos, value),
        0 <= with_bit(byte, pos, value) < 256,
{
    lemma_byte_is_sum_of_bits(byte);
    let old_bits = byte_bits(byte);
    let new_bits = old_bits.update(pos, value);
    assert forall|k: int| 0 <= k < 8 && k != pos implies #[trigger] bit_value(new_bits, k)
        == bit_value(old_bits, k) by {}
    assert(bit_value(new_bits, pos) == if value { weight(pos) } else { 0 });
    assert(bit_value(old_bits, pos) == if bit_at(byte, pos) { weight(pos) } else { 0 });
}

/// Whether `w` is the weight of one of the eight bits of a byte.
pub open spec fn is_weight(w: u8) -> bool {
    w == 1 || w == 2 || w == 4 || w == 8 || w == 16 || w == 32 || w == 64 || w == 128
}

/// After a bit of a byte was replaced, that bit reads as the new value and
/// every other bit as before.
pub proof fn lemma_with_bit(byte: u8, pos: int, value: bool)
    requires
        0 <= pos < 8,
    ensures
        0 <= with_bit(byte, pos, value) < 256,
        bit_at(with_bit(byte, pos, value) as u8, pos) == value,
        forall|other: int|
            0 <= other < 8 && other != pos ==> bit_at(with_bit(byte, pos, value) as u8, other)
                == bit_at(byte, other),
{
    let w = weight(pos) as u8;
    let r = if value {
        byte | w
    } else {
        byte & !w
    };
    assert(r == byte - (if (byte / w) % 2 == 1 {
        w
    } else {
        0
    }) + (if value {
        w
    } else {
        0
    })) by (bit_vector)
        requires
            is_weight(w),
            r == if value {
                byte | w
            } else {
                byte & !w
            },
    ;
    assert forall|other: int| 0 <= other < 8 implies bit_at(r, other) == if other == pos {
        value
    } else {
        bit_at(byte, other)
    } by {
        let v = weight(other) as u8;
        assert(((r / v) % 2 == 1) == if v == w {
            value
        } else {
            (byte / v) % 2 == 1
        }) by (bit_vector)
            requires
                is_weight(w),
                is_weight(v),
                r == if value {
                    byte | w
                } else {
                    byte & !w
                },
        ;
    }
}

/// Reads the bit at position `pos` of `byte`.
pub fn test_bit(byte: u8, pos: usize) -> (r: bool)
    requires
        pos < 8,
    ensures
        r == bit_at(byte, pos as int),
{
    let v = from_byte(byte);
    match get(&v, pos) {
        Some(bit) => bit,
        None => false,
    }
}

/// `byte` with the bit at position `pos` set to `value`.
pub fn assign_bit(byte: u8, pos: usize, value: bool) -> (r: u8)
    requires
        pos < 8,
    ensures
        r == with_bit(byte, pos as int, value),
{
    let mut v = from_byte(byte);
    set(&mut v, pos, value);
    let bytes = to_bytes(&v);
    proof {
        lemma_update_bit(byte, pos as int, value);
    }
    bytes[0]
}

/// Position of the Zero flag in the flags byte.
pub const ZERO: usize = 0;

/// Position of the Subtract flag in the flags byte.
pub const SUBTRACT: usize = 1;

/// Position of the HalfCarry flag in the flags byte.
pub const HALF_CARRY: usize = 2;

/// Position of the Carry flag in the flags byte.
pub const CARRY: usize = 3;

/// The flags byte with its four flags replaced and its low four bits kept.
pub open spec fn flags_byte(
    f: u8,
    zero: bool,
    subtract: bool,
    half_carry: bool,
    carry: bool,
) -> u8 {
    let z: int = if zero { 128 } else { 0 };
    let n: int = if subtract { 64 } else { 0 };
    let h: int = if half_carry { 32 } else { 0 };
    let c: int = if carry { 16 } else { 0 };
    (z + n + h + c + f % 16) as u8
}

/// The four flags read back from a flags byte as they were put in, and the
/// low four bits are those of the byte before.
pub proof fn lemma_flags_byte(f: u8, zero: bool, subtract: bool, half_carry: bool, carry: bool)
    ensures
        bit_at(flags_byte(f, zero, subtract, half_carry, carry), 0) == zero,
        bit_at(flags_byte(f, zero, subtract, half_carry, carry), 1) == subtract,
        bit_at(flags_byte(f, zero, subtract, half_carry, carry), 2) == half_carry,
        bit_at(flags_byte(f, zero, subtract, half_carry, carry), 3) == carry,
        flags_byte(f, zero, subtract, half_carry, carry) % 16 == f % 16,
{
}

/// The low four bits of a byte are worth the byte modulo 16.
proof fn lemma_low_nibble(byte: u8)
    ensures
        bit_value(byte_bits(byte), 4) + bit_value(byte_bits(byte), 5) + bit_value(
            byte_bits(byte),
            6,
        ) + bit_value(byte_bits(byte), 7) == byte % 16,
{
    let b = byte;
    assert(b % 16 == 8 * ((b / 8) % 2) + 4 * ((b / 4) % 2) + 2 * ((b / 2) % 2) + (b / 1) % 2)
        by (bit_vector);
    let bits = byte_bits(byte);
    assert forall|pos: int| 4 <= pos < 8 implies #[trigger] bit_value(bits, pos) == weight(pos)
        * ((b as int / weight(pos)) % 2) by {
        assert(bits[pos] == bit_at(b, pos));
    }
}

/// Replaces the four flags of the flags byte `f` in one pass over its bits.
pub fn pack_flags(f: u8, zero: bool, subtract: bool, half_carry: bool, carry: bool) -> (r: u8)
    ensures
        r == flags_byte(f, zero, subtract, half_carry, carry),
{
    let mut v = from_byte(f);
    set(&mut v, ZERO, zero);
    set(&mut v, SUBTRACT, subtract);
    set(&mut v, HALF_CARRY, half_carry);
    set(&mut v, CARRY, carry);
    let bytes = to_bytes(&v);
    proof {
        lemma_low_nibble(f);
        let old_bits = byte_bits(f);
        let new_bits = bit_seq(v);
        assert forall|k: int| 4 <= k < 8 implies #[trigger] bit_value(new_bits, k) == bit_value(
            old_bits,
            k,
        ) by {}
    }
    bytes[0]
}

/// A byte whose bits are all clear but for the Zero flag, which is `zero`.
pub fn zero_flag_only(zero: bool) -> (r: u8)
    ensures
        r == (if zero { 128u8 } else { 0u8 }),
{
    let mut v = from_elem(8, false);
    if zero {
        set(&mut v, ZERO, true);
    }
    let bytes = to_bytes(&v);
    bytes[0]
}

} // verus!
