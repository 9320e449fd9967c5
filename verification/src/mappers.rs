//! Cartridge-side address mapping. A mapper turns a CPU or PPU address
//! into an offset into the cartridge's program or character storage.

use vstd::prelude::*;
use crate::bits::{lemma_byte_shift, lemma_word_mask, lemma_bank_window};

verus! {

/// What every bank-switching scheme offers: a mapping for each of the
/// four kinds of access, where a CPU write may also change the banking.
pub trait Mapper: Sized {
    /// The mapper after the CPU wrote `data` at `address`.
    spec fn spec_cpu_write(self, address: u16, data: u8) -> Self;

    /// The program-storage offset of CPU address `address`.
    spec fn spec_cpu_read(self, address: u16) -> u16;

    /// The character-storage offset a PPU write at `address` goes to.
    spec fn spec_ppu_write(self, address: u16) -> u16;

    /// The character-storage offset a PPU read at `address` comes from.
    spec fn spec_ppu_read(self, address: u16) -> u16;

    fn cpu_write(&mut self, address: u16, data: u8) -> (mapped: u16)
        ensures
            mapped == address,
            *final(self) == old(self).spec_cpu_write(address, data),
    ;

    fn cpu_read(&self, address: u16) -> (mapped: u16)
        requires
            address >= 0x8000,
        ensures
            mapped == self.spec_cpu_read(address),
    ;

    fn ppu_write(&mut self, address: u16) -> (mapped: u16)
        ensures
            mapped == old(self).spec_ppu_write(address),
            *final(self) == *old(self),
    ;

    fn ppu_read(&self, address: u16) -> (mapped: u16)
        ensures
            mapped == self.spec_ppu_read(address),
    ;
}

/// The fixed-bank scheme: no switching at all. A single 16 KiB program bank
/// shows twice in the CPU's window.
#[derive(Clone, Copy, PartialEq, Eq, Structural, Debug)]
pub struct Mapper000 {
    /// Number of 16 KiB program banks.
    pub program_size: u8,
}

impl Mapper for Mapper000 {
    open spec fn spec_cpu_write(self, address: u16, data: u8) -> Self {
        self
    }

    open spec fn spec_cpu_read(self, address: u16) -> u16 {
        if self.program_size == 1 {
            ((address - 0x8000) % 0x4000) as u16
        } else {
            (address - 0x8000) as u16
        }
    }

    open spec fn spec_ppu_write(self, address: u16) -> u16 {
        address
    }

    open spec fn spec_ppu_read(self, address: u16) -> u16 {
        address
    }

    fn cpu_write(&mut self, address: u16, data: u8) -> (mapped: u16) {
        address
    }

    fn cpu_read(&self, address: u16) -> (mapped: u16) {
        let mut mapped_address: u16 = address - 0x8000;
        if self.program_size == 1 {
            proof {
                lemma_word_mask(mapped_address);
            }
            mapped_address = mapped_address & 0x3fff;
        }
        mapped_address
    }

    fn ppu_write(&mut self, address: u16) -> (mapped: u16) {
        address
    }

    fn ppu_read(&self, address: u16) -> (mapped: u16) {
        address
    }
}

impl Mapper000 {
    pub fn new(program_size: u8) -> (mapper: Mapper000)
        ensures
            mapper.program_size == program_size,
    {
        Mapper000 { program_size }
    }
}

/// The scheme that switches the character bank: the low two bits of any
/// byte the CPU writes into the cartridge's range pick one of four 8 KiB
/// character banks for PPU reads. Program storage is mapped as in the
/// fixed scheme.
#[derive(Clone, Copy, PartialEq, Eq, Structural, Debug)]
pub struct Mapper003 {
    /// Number of 16 KiB program banks.
    pub program_size: u8,
    /// The character bank that PPU reads see.
    pub bank_select: u16,
}

impl Mapper for Mapper003 {
    open spec fn spec_cpu_write(self, address: u16, data: u8) -> Self {
        Mapper003 { bank_select: (data % 4) as u16, ..self }
    }

    open spec fn spec_cpu_read(self, address: u16) -> u16 {
        if self.program_size == 1 {
            ((address - 0x8000) % 0x4000) as u16
        } else {
            (address - 0x8000) as u16
        }
    }

    open spec fn spec_ppu_write(self, address: u16) -> u16 {
        address
    }

    /// The bank number lands in bits 13 and 14 of the offset.
    open spec fn spec_ppu_read(self, address: u16) -> u16 {
        address | (self.bank_select << 13)
    }

    fn cpu_write(&mut self, address: u16, data: u8) -> (mapped: u16) {
        proof {
            lemma_byte_shift(data);
        }
        self.bank_select = (data & 0x03) as u16;
        address
    }

    fn cpu_read(&self, address: u16) -> (mapped: u16) {
        let mut mapped_address: u16 = address - 0x8000;
        proof {
            lemma_word_mask(mapped_address);
        }
        if self.program_size == 1 {
            mapped_address = mapped_address & 0x3fff;
        } else if self.program_size == 2 {
            mapped_address = mapped_address & 0x7fff;
        }
        mapped_address
    }

    fn ppu_write(&mut self, address: u16) -> (mapped: u16) {
        address
    }

    fn ppu_read(&self, address: u16) -> (mapped: u16) {
        address | (self.bank_select << 13)
    }
}

impl Mapper003 {
    pub fn new(program_size: u8) -> (mapper: Mapper003)
        ensures
            mapper.program_size == program_size,
            mapper.bank_select == 0,
    {
        Mapper003 { program_size, bank_select: 0 }
    }

    /// After the CPU has written `data` anywhere in the cartridge's range,
    /// a PPU read inside the 8 KiB pattern window lands in the bank that
    /// the low two bits of `data` name.
    pub proof fn lemma_write_selects_bank(self, written_at: u16, data: u8, address: u16)
        requires
            address < 0x2000,
        ensures
            self.spec_cpu_write(written_at, data).spec_ppu_read(address) == (data % 4) * 0x2000
                + address,
    {
        self.spec_cpu_write(written_at, data).lemma_ppu_read_is_bank_offset(address);
    }

    /// Inside the 8 KiB pattern window a PPU read lands `bank_select` whole
    /// banks further on.
    pub proof fn lemma_ppu_read_is_bank_offset(self, address: u16)
        requires
            address < 0x2000,
            self.bank_select <= 3,
        ensures
            self.spec_ppu_read(address) == self.bank_select * 0x2000 + address,
    {
        lemma_bank_window(address, self.bank_select);
    }
}

/// The mapper a cartridge carries: one of the schemes above.
#[derive(Clone, Copy, PartialEq, Eq, Structural, Debug)]
pub enum CartridgeMapper {
    Fixed(Mapper000),
    CharacterSwitched(Mapper003),
}

impl Mapper for CartridgeMapper {
    open spec fn spec_cpu_write(self, address: u16, data: u8) -> Self {
        match self {
            CartridgeMapper::Fixed(m) => CartridgeMapper::Fixed(m.spec_cpu_write(address, data)),
            CartridgeMapper::CharacterSwitched(m) => CartridgeMapper::CharacterSwitched(
                m.spec_cpu_write(address, data),
            ),
        }
    }

    open spec fn spec_cpu_read(self, address: u16) -> u16 {
        match self {
            CartridgeMapper::Fixed(m) => m.spec_cpu_read(address),
            CartridgeMapper::CharacterSwitched(m) => m.spec_cpu_read(address),
        }
    }

    open spec fn spec_ppu_write(self, address: u16) -> u16 {
        match self {
            CartridgeMapper::Fixed(m) => m.spec_ppu_write(address),
            CartridgeMapper::CharacterSwitched(m) => m.spec_ppu_write(address),
        }
    }

    open spec fn spec_ppu_read(self, address: u16) -> u16 {
        match self {
            CartridgeMapper::Fixed(m) => m.spec_ppu_read(address),
            CartridgeMapper::CharacterSwitched(m) => m.spec_ppu_read(address),
        }
    }

    fn cpu_write(&mut self, address: u16, data: u8) -> (mapped: u16) {
        match self {
            CartridgeMapper::Fixed(m) => m.cpu_write(address, data),
            CartridgeMapper::CharacterSwitched(m) => m.cpu_write(address, data),
        }
    }

    fn cpu_read(&self, address: u16) -> (mapped: u16) {
        match self {
            CartridgeMapper::Fixed(m) => m.cpu_read(address),
            CartridgeMapper::CharacterSwitched(m) => m.cpu_read(address),
        }
    }

    fn ppu_write(&mut self, address: u16) -> (mapped: u16) {
        match self {
            CartridgeMapper::Fixed(m) => m.ppu_write(address),
            CartridgeMapper::CharacterSwitched(m) => m.ppu_write(address),
        }
    }

    fn ppu_read(&self, address: u16) -> (mapped: u16) {
        match self {
            CartridgeMapper::Fixed(m) => m.ppu_read(address),
            CartridgeMapper::CharacterSwitched(m) => m.ppu_read(address),
        }
    }
}

} // verus!
