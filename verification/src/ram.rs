//! The console's work memory: 2 KiB, seen four times over in its range.

use vstd::prelude::*;
use crate::bits::lemma_word_mask;
use crate::bus::{Addressable, AddressRange};

verus! {

pub const RAM_SIZE: u16 = 0x800;

pub struct Ram {
    pub data: [u8; 2048],
}

impl Addressable for Ram {
    open spec fn spec_address_range(&self) -> AddressRange {
        AddressRange { start: 0x0000, end: 0x2000 }
    }

    open spec fn spec_read(self, address: u16) -> (u8, Self) {
        (self.data[(address % 0x800) as int], self)
    }

    open spec fn spec_write(self, address: u16, data: u8) -> Self {
        Ram { data: vstd::array::spec_array_update(self.data, (address % 0x800) as int, data) }
    }

    fn address_range(&self) -> (range: AddressRange) {
        AddressRange { start: 0x0000, end: 0x2000 }
    }

    fn read(&mut self, address: u16) -> (data: u8) {
        proof {
            lemma_word_mask(address);
        }
        self.data[(address & (RAM_SIZE - 1)) as usize]
    }

    fn write(&mut self, address: u16, data: u8) {
        proof {
            lemma_word_mask(address);
        }
        self.data[(address & (RAM_SIZE - 1)) as usize] = data;
    }
}

impl Ram {
    pub fn new() -> (ram: Ram)
        ensures
            forall|i: int| 0 <= i < 2048 ==> ram.data[i] == 0,
    {
        Ram { data: [0u8; 2048] }
    }
}

impl Default for Ram {
    fn default() -> (ram: Ram)
        ensures
            forall|i: int| 0 <= i < 2048 ==> ram.data[i] == 0,
    {
        Ram::new()
    }
}

} // verus!
