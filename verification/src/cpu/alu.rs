//! The arithmetic of the processor, as functions on bytes.

use vstd::prelude::*;
use crate::bits::{
    bit, lemma_byte_bits, lemma_byte_double, lemma_byte_shift, lemma_complement, lemma_rotate,
    lemma_sign_overflow,
};

verus! {

/// What an addition or subtraction hands to the accumulator and the flags.
#[derive(Clone, Copy, PartialEq, Eq, Structural, Debug)]
pub struct Sum {
    pub result: u8,
    pub carry: bool,
    pub overflow: bool,
}

/// A byte read as a number in two's complement.
pub open spec fn signed(value: u8) -> int {
    if value >= 128 {
        value - 256
    } else {
        value as int
    }
}

/// Add with carry. The carry out says that the unsigned sum did not fit in
/// a byte, the overflow that the signed sum did not.
#[verifier::opaque]
pub open spec fn spec_adc(a: u8, value: u8, carry: bool) -> Sum {
    let sum = a + value + bit(carry);
    let signed_sum = signed(a) + signed(value) + bit(carry);
    Sum {
        result: (sum % 256) as u8,
        carry: sum > 255,
        overflow: signed_sum < -128 || signed_sum > 127,
    }
}

/// Subtract with borrow, the borrow being the carry inverted. The carry
/// out says that no borrow was needed, the overflow that the signed
/// difference did not fit in a byte.
#[verifier::opaque]
pub open spec fn spec_sbc(a: u8, value: u8, carry: bool) -> Sum {
    let difference = a - value - (1 - bit(carry));
    let signed_difference = signed(a) - signed(value) - (1 - bit(carry));
    Sum {
        result: (difference % 256) as u8,
        carry: difference >= 0,
        overflow: signed_difference < -128 || signed_difference > 127,
    }
}

pub fn adc(a: u8, value: u8, carry: bool) -> (sum: Sum)
    ensures
        sum == spec_adc(a, value, carry),
{
    let temp: u16 = (a as u16) + (value as u16) + (carry as u16);
    proof {
        reveal(spec_adc);
        lemma_sign_overflow(a, value, temp);
    }
    Sum {
        result: temp as u8,
        carry: temp > 0xff,
        overflow: !((a as u16) ^ (value as u16)) & ((a as u16) ^ temp) & 0x80 != 0,
    }
}

pub fn sbc(a: u8, value: u8, carry: bool) -> (sum: Sum)
    ensures
        sum == spec_sbc(a, value, carry),
{
    proof {
        reveal(spec_adc);
        reveal(spec_sbc);
        lemma_complement(value);
    }
    adc(a, value ^ 0xff, carry)
}

/// The carry and overflow of an addition are what the data sheet's
/// formulas give: the carry is the ninth bit of the sum, and the overflow
/// is set where both operands have the sign that the result has not.
pub proof fn lemma_adc_flags(a: u8, value: u8, carry: bool)
    ensures
        spec_adc(a, value, carry).carry == ((a + value + bit(carry)) / 256 == 1),
        spec_adc(a, value, carry).overflow == (!(a ^ value) & (a ^ spec_adc(
            a,
            value,
            carry,
        ).result) & 0x80 != 0),
{
    reveal(spec_adc);
    let temp: u16 = (a + value + bit(carry)) as u16;
    lemma_sign_overflow(a, value, temp);
    let r: u8 = spec_adc(a, value, carry).result;
    assert((!(a ^ value) & (a ^ r) & 0x80 != 0) == (!((a as u16) ^ (value as u16)) & ((a as u16)
        ^ temp) & 0x80 != 0)) by (bit_vector)
        requires
            r == temp as u8,
    ;
}

/// Subtracting a byte is adding its complement.
pub proof fn lemma_sbc_is_adc_of_complement(a: u8, value: u8, carry: bool)
    ensures
        spec_sbc(a, value, carry) == spec_adc(a, !value, carry),
{
    reveal(spec_adc);
    reveal(spec_sbc);
    lemma_complement(value);
}

/// The result of a shift, a rotation, an increment or a decrement, and the
/// carry after it.
#[derive(Clone, Copy, PartialEq, Eq, Structural, Debug)]
pub struct Shifted {
    pub result: u8,
    pub carry: bool,
}

/// Shift left: the top bit goes to the carry.
#[verifier::opaque]
pub open spec fn spec_asl(value: u8) -> Shifted {
    Shifted { result: ((value * 2) % 256) as u8, carry: value >= 128 }
}

/// Shift right: the low bit goes to the carry.
#[verifier::opaque]
pub open spec fn spec_lsr(value: u8) -> Shifted {
    Shifted { result: value / 2, carry: value % 2 == 1 }
}

/// Rotate left through the carry.
#[verifier::opaque]
pub open spec fn spec_rol(value: u8, carry: bool) -> Shifted {
    Shifted { result: ((value * 2) % 256 + bit(carry)) as u8, carry: value >= 128 }
}

/// Rotate right through the carry.
#[verifier::opaque]
pub open spec fn spec_ror(value: u8, carry: bool) -> Shifted {
    Shifted { result: (value / 2 + 128 * bit(carry)) as u8, carry: value % 2 == 1 }
}

pub fn asl(value: u8) -> (shifted: Shifted)
    ensures
        shifted == spec_asl(value),
{
    proof {
        reveal(spec_asl);
        lemma_byte_bits(value);
        lemma_byte_double(value);
    }
    Shifted { result: value << 1, carry: (value & 0x80) != 0 }
}

pub fn lsr(value: u8) -> (shifted: Shifted)
    ensures
        shifted == spec_lsr(value),
{
    proof {
        reveal(spec_lsr);
        lemma_byte_bits(value);
        lemma_byte_shift(value);
    }
    Shifted { result: value >> 1, carry: (value & 0x01) != 0 }
}

pub fn rol(value: u8, carry: bool) -> (shifted: Shifted)
    ensures
        shifted == spec_rol(value, carry),
{
    proof {
        reveal(spec_rol);
        lemma_byte_bits(value);
        lemma_rotate(value, carry);
    }
    Shifted { result: (value << 1) | (carry as u8), carry: (value & 0x80) != 0 }
}

pub fn ror(value: u8, carry: bool) -> (shifted: Shifted)
    ensures
        shifted == spec_ror(value, carry),
{
    proof {
        reveal(spec_ror);
        lemma_byte_bits(value);
        lemma_rotate(value, carry);
    }
    Shifted { result: ((carry as u8) << 7) | (value >> 1), carry: (value & 0x01) != 0 }
}

/// The high and low byte of a word, low first.
pub open spec fn spec_to_u16(low_byte: u8, high_byte: u8) -> u16 {
    (high_byte * 256 + low_byte) as u16
}

#[verifier::when_used_as_spec(spec_to_u16)]
pub fn to_u16(low_byte: u8, high_byte: u8) -> (word: u16)
    ensures
        word == spec_to_u16(low_byte, high_byte),
{
    (high_byte as u16) * 256 + (low_byte as u16)
}

/// `pc` moved by the signed byte `offset`, around the ends of the address
/// space.
#[verifier::opaque]
pub open spec fn spec_relative(pc: u16, offset: u8) -> u16 {
    ((pc + signed(offset)) % 0x10000) as u16
}

#[verifier::when_used_as_spec(spec_relative)]
pub fn relative(pc: u16, offset: u8) -> (target: u16)
    ensures
        target == spec_relative(pc, offset),
{
    proof {
        reveal(spec_relative);
    }
    if offset >= 128 {
        pc.wrapping_sub(256 - offset as u16)
    } else {
        pc.wrapping_add(offset as u16)
    }
}

} // verus!
