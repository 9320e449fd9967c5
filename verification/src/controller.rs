//! The joypad: a latch of the eight buttons and a shift register that hands
//! them to the CPU one bit per read.

use vstd::prelude::*;
use crate::bits::{lemma_byte_bits, lemma_rotate, lemma_shift_out};
use crate::bus::{Addressable, AddressRange};

verus! {

#[derive(Clone, Copy, PartialEq, Eq, Structural, Debug)]
pub struct Controller {
    /// The buttons as the outside world last set them, A in bit 7.
    pub input: u8,
    /// What is left to shift out.
    pub state: u8,
}

impl Addressable for Controller {
    open spec fn spec_address_range(&self) -> AddressRange {
        AddressRange { start: 0x4016, end: 0x4017 }
    }

    /// A read hands out the top bit of the register and moves the rest
    /// up, with a 1 coming in at the bottom: once the eight buttons are
    /// out, every read gives 1.
    open spec fn spec_read(self, address: u16) -> (u8, Self) {
        (
            if self.state >= 128 { 1u8 } else { 0u8 },
            Controller { state: ((self.state * 2) % 256 + 1) as u8, ..self },
        )
    }

    /// Any write samples the buttons into the register.
    open spec fn spec_write(self, address: u16, data: u8) -> Self {
        Controller { state: self.input, ..self }
    }

    fn address_range(&self) -> (range: AddressRange) {
        AddressRange { start: 0x4016, end: 0x4017 }
    }

    fn read(&mut self, address: u16) -> (data: u8) {
        proof {
            lemma_byte_bits(self.state);
            lemma_rotate(self.state, true);
        }
        let data: u8 = if (self.state & 0x80) > 0 { 1 } else { 0 };
        self.state = (self.state << 1) | (true as u8);
        data
    }

    fn write(&mut self, address: u16, data: u8) {
        self.state = self.input;
    }
}

/// The eight buttons of the joypad.
#[derive(Clone, Copy, PartialEq, Eq, Structural, Debug)]
pub enum Button {
    A,
    B,
    Select,
    Start,
    Up,
    Down,
    Left,
    Right,
}

impl Button {
    /// The bit of the button in the input byte: A in bit 7, then B,
    /// Select, Start, Up, Down, Left, and Right in bit 0.
    pub open spec fn spec_mask(self) -> u8 {
        match self {
            Button::A => 0x80,
            Button::B => 0x40,
            Button::Select => 0x20,
            Button::Start => 0x10,
            Button::Up => 0x08,
            Button::Down => 0x04,
            Button::Left => 0x02,
            Button::Right => 0x01,
        }
    }

    #[verifier::when_used_as_spec(spec_mask)]
    pub fn mask(self) -> (mask: u8)
        ensures
            mask == self.spec_mask(),
    {
        match self {
            Button::A => 0x80,
            Button::B => 0x40,
            Button::Select => 0x20,
            Button::Start => 0x10,
            Button::Up => 0x08,
            Button::Down => 0x04,
            Button::Left => 0x02,
            Button::Right => 0x01,
        }
    }
}

impl Controller {
    /// Records that `button` is held down, or that it is not. The other
    /// buttons and the shift register stay as they are.
    pub fn set_button(&mut self, button: Button, down: bool)
        ensures
            final(self).state == old(self).state,
            final(self).input == if down {
                old(self).input | button.spec_mask()
            } else {
                old(self).input & !button.spec_mask()
            },
    {
        if down {
            self.input = self.input | button.mask();
        } else {
            self.input = self.input & !button.mask();
        }
    }

    pub fn new() -> (controller: Controller)
        ensures
            controller == (Controller { input: 0, state: 0 }),
    {
        Controller { input: 0, state: 0 }
    }

    /// The register after `n` reads.
    pub open spec fn after_reads(self, n: nat) -> Controller
        decreases n,
    {
        if n == 0 {
            self
        } else {
            self.after_reads((n - 1) as nat).spec_read(0x4016).1
        }
    }

    /// What read number `n`, counted from 0, hands out.
    pub open spec fn nth_read(self, n: nat) -> u8 {
        self.after_reads(n).spec_read(0x4016).0
    }

    /// The bit that read number `n` after a write hands out: bit 7 of the
    /// buttons first, bit 0 on the eighth read, and 1 from then on.
    pub open spec fn spec_button_bit(input: u8, n: nat) -> u8 {
        if n == 0 {
            input / 128
        } else if n == 1 {
            (input / 64) % 2
        } else if n == 2 {
            (input / 32) % 2
        } else if n == 3 {
            (input / 16) % 2
        } else if n == 4 {
            (input / 8) % 2
        } else if n == 5 {
            (input / 4) % 2
        } else if n == 6 {
            (input / 2) % 2
        } else if n == 7 {
            input % 2
        } else {
            1
        }
    }

    /// After a write the eight buttons come out most significant bit
    /// first, one to a read, and every read after them gives 1.
    pub proof fn lemma_reads_after_write(self, data: u8, n: nat)
        ensures
            self.spec_write(0x4016, data).nth_read(n) == Self::spec_button_bit(self.input, n),
    {
        let latched = self.spec_write(0x4016, data);
        lemma_shift_out(self.input);
        assert(latched.after_reads(0) == latched);
        assert(latched.after_reads(1) == latched.after_reads(0).spec_read(0x4016).1);
        assert(latched.after_reads(2) == latched.after_reads(1).spec_read(0x4016).1);
        assert(latched.after_reads(3) == latched.after_reads(2).spec_read(0x4016).1);
        assert(latched.after_reads(4) == latched.after_reads(3).spec_read(0x4016).1);
        assert(latched.after_reads(5) == latched.after_reads(4).spec_read(0x4016).1);
        assert(latched.after_reads(6) == latched.after_reads(5).spec_read(0x4016).1);
        assert(latched.after_reads(7) == latched.after_reads(6).spec_read(0x4016).1);
        assert(latched.after_reads(8) == latched.after_reads(7).spec_read(0x4016).1);
        assert(latched.after_reads(8).state == 255);
        if n >= 8 {
            latched.lemma_drained(n);
        }
    }

    /// Once the register holds ones only, it keeps doing so.
    pub proof fn lemma_drained(self, n: nat)
        requires
            n >= 8,
            self.after_reads(8).state == 255,
        ensures
            self.after_reads(n).state == 255,
        decreases n,
    {
        if n > 8 {
            self.lemma_drained((n - 1) as nat);
        }
    }
}

impl Default for Controller {
    fn default() -> (controller: Controller)
        ensures
            controller == (Controller { input: 0, state: 0 }),
    {
        Controller::new()
    }
}

} // verus!
