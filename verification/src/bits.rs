//! Facts that tie the bitwise operators used by the device code to ordinary
//! arithmetic on bytes and words.

use vstd::prelude::*;

verus! {

/// 1 for a set flag, 0 for a clear one.
pub open spec fn bit(b: bool) -> int {
    if b {
        1
    } else {
        0
    }
}

/// Testing a single bit of a byte with a mask is testing a digit of its
/// binary expansion.
pub proof fn lemma_byte_bits(b: u8)
    by (bit_vector)
    ensures
        (b & 0x01 != 0) == (b % 2 == 1),
        ((b >> 1) & 1 != 0) == ((b / 2) % 2 == 1),
        ((b >> 2) & 1 != 0) == ((b / 4) % 2 == 1),
        ((b >> 3) & 1 != 0) == ((b / 8) % 2 == 1),
        ((b >> 4) & 1 != 0) == ((b / 16) % 2 == 1),
        ((b >> 5) & 1 != 0) == ((b / 32) % 2 == 1),
        ((b >> 6) & 1 != 0) == ((b / 64) % 2 == 1),
        ((b >> 7) & 1 != 0) == (b >= 128),
        (b & 0x80 != 0) == (b >= 128),
        (b & 0x80 > 0) == (b >= 128),
        (b & 0x40 != 0) == ((b / 64) % 2 == 1),
{
}

/// Shifting a byte up by one place doubles it and drops the carry.
pub proof fn lemma_byte_double(b: u8)
    by (bit_vector)
    ensures
        b << 1 == (b * 2) % 256,
{
}

/// Shifting a byte down by one place halves it; masking its low two bits
/// is a remainder.
pub proof fn lemma_byte_shift(b: u8)
    by (bit_vector)
    ensures
        b >> 1 == b / 2,
        b & 0x03 == b % 4,
{
}

/// Masking a word with a run of low ones is a remainder.
pub proof fn lemma_word_mask(a: u16)
    by (bit_vector)
    ensures
        a & 0x07ff == a % 0x0800,
        a & 0x3fff == a % 0x4000,
        a & 0x7fff == a % 0x8000,
{
}

/// A bank number moved into bits 13 and 14 adds whole 8 KiB banks to an
/// offset that stays below 8 KiB.
pub proof fn lemma_bank_window(address: u16, bank: u16)
    by (bit_vector)
    requires
        address < 0x2000,
        bank <= 3,
    ensures
        address | (bank << 13) == bank * 0x2000 + address,
{
}

/// The mapper number of a ROM header: one nibble from each flag byte.
pub proof fn lemma_mapper_number(lo: u8, hi: u8)
    by (bit_vector)
    ensures
        (lo >> 4) & 0xf | (hi & 0xf0) == lo / 16 + (hi / 16) * 16,
{
}

/// The status byte: three flags above the five low bits.
pub proof fn lemma_status_pack(unused: u8, overflow: bool, zero_hit: bool, blank: bool)
    by (bit_vector)
    ensures
        (unused | (overflow as u8) << 5 | (zero_hit as u8) << 6 | (blank as u8) << 7) == unused | ((
        32 * (overflow as u8) + 64 * (zero_hit as u8) + 128 * (blank as u8)) as u8),
        unused < 32 ==> (unused | (overflow as u8) << 5 | (zero_hit as u8) << 6 | (blank as u8)
            << 7) == unused + 32 * (overflow as u8) + 64 * (zero_hit as u8) + 128 * (blank as u8),
{
}

/// The fields of a scroll word, by shifts and masks and by division.
pub proof fn lemma_loopy_unpack(data: u16)
    by (bit_vector)
    ensures
        (data as u8) & 0x1f == data % 32,
        ((data >> 5) as u8) & 0x1f == (data / 32) % 32,
        ((data >> 10) & 1 != 0) == ((data / 1024) % 2 == 1),
        ((data >> 11) & 1 != 0) == ((data / 2048) % 2 == 1),
        ((data >> 12) as u8) & 0x07 == (data / 4096) % 8,
        ((data >> 15) & 1 != 0) == (data >= 32768),
{
}

/// A scroll word put together by shifts is the sum of its fields at their
/// places.
pub proof fn lemma_loopy_pack(cx: u8, cy: u8, nx: bool, ny: bool, fy: u8, un: bool)
    by (bit_vector)
    ensures
        ((cx & 0x1f) as u16) | ((cy & 0x1f) as u16) << 5 | (nx as u16) << 10 | (ny as u16) << 11
            | ((fy & 0x07) as u16) << 12 | (un as u16) << 15 == (cx % 32) as u16 + 32 * (cy
            % 32) as u16 + 1024 * (nx as u16) + 2048 * (ny as u16) + 4096 * (fy % 8) as u16
            + 32768 * (un as u16),
{
}

/// A scroll word is the sum of its fields at their places.
pub proof fn lemma_loopy_sum(data: u16)
    by (bit_vector)
    ensures
        data % 32 + 32 * ((data / 32) % 32) + 1024 * ((data / 1024) % 2) + 2048 * ((data / 2048)
            % 2) + 4096 * ((data / 4096) % 8) + 32768 * (data / 32768) == data,
{
}

/// Fields that keep to their widths can be read off the word that they make
/// up.
pub proof fn lemma_loopy_fields(cx: u8, cy: u8, nx: bool, ny: bool, fy: u8, un: bool)
    by (bit_vector)
    requires
        cx < 32,
        cy < 32,
        fy < 8,
    ensures
        ({
            let word = cx as u16 + 32 * cy as u16 + 1024 * (nx as u16) + 2048 * (ny as u16) + 4096
                * fy as u16 + 32768 * (un as u16);
            &&& word < 65536
            &&& word % 32 == cx as u16
            &&& (word / 32) % 32 == cy as u16
            &&& ((word / 1024) % 2 == 1) == nx
            &&& ((word / 2048) % 2 == 1) == ny
            &&& (word / 4096) % 8 == fy as u16
            &&& (word >= 32768) == un
        }),
{
}

/// Three rounds of swapping reverse the bits of a byte.
pub proof fn lemma_flip(b: u8)
    by (bit_vector)
    ensures
        ({
            let h: u8 = (b & 0xf0) >> 4 | (b & 0x0f) << 4;
            let p: u8 = (h & 0xcc) >> 2 | (h & 0x33) << 2;
            (p & 0xaa) >> 1 | (p & 0x55) << 1
        }) == 128 * (b % 2) + 64 * ((b / 2) % 2) + 32 * ((b / 4) % 2) + 16 * ((b / 8) % 2) + 8 * ((b
            / 16) % 2) + 4 * ((b / 32) % 2) + 2 * ((b / 64) % 2) + b / 128,
{
}

/// Eight flags put side by side by shifts are the sum of their place
/// values.
pub proof fn lemma_flags_pack(c: bool, z: bool, i: bool, d: bool, b: bool, u: bool, v: bool, n: bool)
    by (bit_vector)
    ensures
        (c as u8) | (z as u8) << 1 | (i as u8) << 2 | (d as u8) << 3 | (b as u8) << 4 | (u as u8)
            << 5 | (v as u8) << 6 | (n as u8) << 7 == (c as u8) + 2 * (z as u8) + 4 * (i as u8) + 8
            * (d as u8) + 16 * (b as u8) + 32 * (u as u8) + 64 * (v as u8) + 128 * (n as u8),
{
}

/// The data sheet's overflow formula looks at three sign bits: it holds
/// where both operands have the same sign and the sum has the other.
pub proof fn lemma_sign_overflow(a: u8, value: u8, sum: u16)
    by (bit_vector)
    ensures
        ({
            &&& (!((a as u16) ^ (value as u16)) & ((a as u16) ^ sum) & 0x80 != 0) == ((a < 128) == (
            value < 128) && (a < 128) != (sum % 256 < 128))
            &&& sum as u8 == sum % 256
        }),
{
}

/// Flipping every bit of a byte takes it from 255.
pub proof fn lemma_complement(value: u8)
    by (bit_vector)
    ensures
        value ^ 0xff == 255 - value && !value == 255 - value,
{
}

/// A rotation is a shift with the carry put into the bit that the shift
/// left empty.
pub proof fn lemma_rotate(value: u8, carry: bool)
    by (bit_vector)
    ensures
        ({
            &&& (value << 1) | (carry as u8) == (value * 2) % 256 + (carry as u8)
            &&& ((carry as u8) << 7) | (value >> 1) == value / 2 + 128 * (carry as u8)
        }),
{
}

/// A byte shifted up eight times, a one coming in each time, shows its
/// bits at the top one after the other and ends as ones only.
pub proof fn lemma_shift_out(v: u8)
    by (bit_vector)
    ensures
        ({
            let s1: u8 = (v << 1) | 1;
            let s2: u8 = (s1 << 1) | 1;
            let s3: u8 = (s2 << 1) | 1;
            let s4: u8 = (s3 << 1) | 1;
            let s5: u8 = (s4 << 1) | 1;
            let s6: u8 = (s5 << 1) | 1;
            let s7: u8 = (s6 << 1) | 1;
            let s8: u8 = (s7 << 1) | 1;
            &&& (s1 >= 128) == ((v / 64) % 2 == 1)
            &&& (s2 >= 128) == ((v / 32) % 2 == 1)
            &&& (s3 >= 128) == ((v / 16) % 2 == 1)
            &&& (s4 >= 128) == ((v / 8) % 2 == 1)
            &&& (s5 >= 128) == ((v / 4) % 2 == 1)
            &&& (s6 >= 128) == ((v / 2) % 2 == 1)
            &&& (s7 >= 128) == (v % 2 == 1)
            &&& s8 == 255
            &&& s1 == (v * 2) % 256 + 1
            &&& s2 == (s1 * 2) % 256 + 1
            &&& s3 == (s2 * 2) % 256 + 1
            &&& s4 == (s3 * 2) % 256 + 1
            &&& s5 == (s4 * 2) % 256 + 1
            &&& s6 == (s5 * 2) % 256 + 1
            &&& s7 == (s6 * 2) % 256 + 1
            &&& s8 == (s7 * 2) % 256 + 1
        }),
{
}

} // verus!
