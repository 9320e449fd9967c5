//! The processor status register.

use vstd::prelude::*;
use crate::bits::{bit, lemma_byte_bits, lemma_flags_pack};

verus! {

/// The eight status flags, from bit 0 to bit 7 of the status byte: carry,
/// zero, interrupt disable, decimal, break, unused, overflow, negative.
#[derive(Clone, Copy, PartialEq, Eq, Structural, Debug)]
pub struct Flags {
    pub carry: bool,
    pub zero: bool,
    pub interrupt: bool,
    pub decimal: bool,
    pub _break: bool,
    pub unused: bool,
    pub overflow: bool,
    pub negative: bool,
}

impl Flags {
    /// All flags clear.
    pub open spec fn clear() -> Flags {
        Flags {
            carry: false,
            zero: false,
            interrupt: false,
            decimal: false,
            _break: false,
            unused: false,
            overflow: false,
            negative: false,
        }
    }

    /// The flags with zero and negative set from `value`: zero if it is 0,
    /// negative if its top bit is set.
    pub open spec fn spec_set_zn(self, value: u8) -> Flags {
        Flags { zero: value == 0, negative: value >= 128, ..self }
    }

    /// The status byte: each flag at its place.
    pub open spec fn spec_byte(&self) -> u8 {
        (bit(self.carry) + 2 * bit(self.zero) + 4 * bit(self.interrupt) + 8 * bit(self.decimal)
            + 16 * bit(self._break) + 32 * bit(self.unused) + 64 * bit(self.overflow) + 128 * bit(
            self.negative,
        )) as u8
    }

    /// The flags after a status byte is loaded: break and unused live only
    /// on the stack and keep their values.
    #[verifier::opaque]
    pub open spec fn spec_set_byte(self, byte: u8) -> Flags {
        Flags {
            carry: byte % 2 == 1,
            zero: (byte / 2) % 2 == 1,
            interrupt: (byte / 4) % 2 == 1,
            decimal: (byte / 8) % 2 == 1,
            overflow: (byte / 64) % 2 == 1,
            negative: byte >= 128,
            ..self
        }
    }

    /// The flags after `register` was compared with `value`: carry if it
    /// is not below, zero and negative from the difference.
    pub open spec fn spec_compare(self, register: u8, value: u8) -> Flags {
        Flags { carry: register >= value, ..self }.spec_set_zn(register.wrapping_sub(value))
    }

    pub fn compared(self, register: u8, value: u8) -> (flags: Flags)
        ensures
            flags == self.spec_compare(register, value),
    {
        Flags { carry: register >= value, ..self }.with_zn(register.wrapping_sub(value))
    }

    pub fn with_zn(self, value: u8) -> (flags: Flags)
        ensures
            flags == self.spec_set_zn(value),
    {
        proof {
            lemma_byte_bits(value);
        }
        Flags { zero: value == 0, negative: value & 0x80 != 0, ..self }
    }

    pub fn set_zn(&mut self, value: u8)
        ensures
            *final(self) == old(self).spec_set_zn(value),
    {
        proof {
            lemma_byte_bits(value);
        }
        self.zero = value == 0;
        self.negative = value & 0x80 != 0;
    }

    #[verifier::when_used_as_spec(spec_byte)]
    pub fn byte(&self) -> (byte: u8)
        ensures
            byte == self.spec_byte(),
    {
        proof {
            lemma_flags_pack(
                self.carry,
                self.zero,
                self.interrupt,
                self.decimal,
                self._break,
                self.unused,
                self.overflow,
                self.negative,
            );
        }
        (self.carry as u8) | (self.zero as u8) << 1 | (self.interrupt as u8) << 2 | (
        self.decimal as u8) << 3 | (self._break as u8) << 4 | (self.unused as u8) << 5 | (
        self.overflow as u8) << 6 | (self.negative as u8) << 7
    }

    pub fn set_byte(&mut self, byte: u8)
        ensures
            *final(self) == old(self).spec_set_byte(byte),
    {
        proof {
            reveal(Flags::spec_set_byte);
            lemma_byte_bits(byte);
        }
        self.carry = ((byte) & 1) != 0;
        self.zero = ((byte >> 1) & 1) != 0;
        self.interrupt = ((byte >> 2) & 1) != 0;
        self.decimal = ((byte >> 3) & 1) != 0;
        self.overflow = ((byte >> 6) & 1) != 0;
        self.negative = ((byte >> 7) & 1) != 0;
    }

    /// Loading the byte of some flags gives their carry, zero, interrupt,
    /// decimal, overflow and negative back.
    pub proof fn lemma_set_byte_of_byte(self, other: Flags)
        ensures
            self.spec_set_byte(other.spec_byte()) == (Flags {
                _break: self._break,
                unused: self.unused,
                ..other
            }),
    {
        reveal(Flags::spec_set_byte);
    }
}

impl Default for Flags {
    fn default() -> (flags: Flags)
        ensures
            flags == Self::clear(),
    {
        Flags {
            carry: false,
            zero: false,
            interrupt: false,
            decimal: false,
            _break: false,
            unused: false,
            overflow: false,
            negative: false,
        }
    }
}

} // verus!
