//! The cartridge: program and character storage behind a mapper, and the
//! reading of a ROM image into it.

use vstd::prelude::*;
use vstd::slice::{slice_subrange, slice_to_vec};
use crate::bits::{lemma_byte_bits, lemma_mapper_number};
use crate::bus::{Addressable, AddressRange};
use crate::mappers::{CartridgeMapper, Mapper, Mapper000, Mapper003};

verus! {

/// How the two physical nametables fill the four logical ones.
#[derive(Clone, Copy, PartialEq, Eq, Structural, Debug)]
pub enum Mirror {
    /// No cartridge has said yet.
    Unset,
    Horizontal,
    Vertical,
}

/// Why a ROM image was turned down.
#[derive(Clone, Copy, PartialEq, Eq, Structural, Debug)]
pub enum CartridgeError {
    /// The image does not start with the four magic bytes.
    BadMagic,
    /// The image is shorter than its header says.
    Truncated,
    /// The header names a mapper other than 0 and 3.
    UnsupportedMapper(u8),
}

pub struct Cartridge {
    pub program_rom: Vec<u8>,
    pub character_rom: Vec<u8>,
    pub program_ram: Vec<u8>,
    pub mapper: CartridgeMapper,
    pub valid: bool,
    pub mirror: Mirror,
}

/// A cartridge as a value: its storage as sequences of bytes.
pub struct CartridgeView {
    pub program_rom: Seq<u8>,
    pub character_rom: Seq<u8>,
    pub program_ram: Seq<u8>,
    pub mapper: CartridgeMapper,
    pub valid: bool,
    pub mirror: Mirror,
}

impl View for Cartridge {
    type V = CartridgeView;

    open spec fn view(&self) -> CartridgeView {
        CartridgeView {
            program_rom: self.program_rom@,
            character_rom: self.character_rom@,
            program_ram: self.program_ram@,
            mapper: self.mapper,
            valid: self.valid,
            mirror: self.mirror,
        }
    }
}

/// The byte at `offset` of a store, or 0 past its end.
pub open spec fn byte_at(store: Seq<u8>, offset: int) -> u8 {
    if 0 <= offset < store.len() {
        store[offset]
    } else {
        0
    }
}

impl CartridgeView {
    /// What the CPU reads at `address`: the program byte the mapper points
    /// at, or 0 where program storage does not reach.
    pub open spec fn spec_read(self, address: u16) -> u8 {
        byte_at(self.program_rom, self.mapper.spec_cpu_read(address) as int)
    }

    /// A CPU write reaches only the mapper.
    pub open spec fn spec_write(self, address: u16, data: u8) -> CartridgeView {
        CartridgeView { mapper: self.mapper.spec_cpu_write(address, data), ..self }
    }

    /// What the PPU reads at `address`: the character byte the mapper points
    /// at, or 0 where character storage does not reach.
    pub open spec fn spec_ppu_read(self, address: u16) -> u8 {
        byte_at(self.character_rom, self.mapper.spec_ppu_read(address) as int)
    }

    /// A PPU write changes the character byte the mapper points at, and
    /// nothing where character storage does not reach.
    pub open spec fn spec_ppu_write(self, address: u16, data: u8) -> CartridgeView {
        let offset = self.mapper.spec_ppu_write(address) as int;
        if offset < self.character_rom.len() {
            CartridgeView { character_rom: self.character_rom.update(offset, data), ..self }
        } else {
            self
        }
    }
}

impl Addressable for Cartridge {
    open spec fn spec_address_range(&self) -> AddressRange {
        AddressRange { start: 0x8000, end: 0x10000 }
    }

    open spec fn spec_read(self, address: u16) -> (u8, Self) {
        (self@.spec_read(address), self)
    }

    open spec fn spec_write(self, address: u16, data: u8) -> Self {
        Cartridge { mapper: self.mapper.spec_cpu_write(address, data), ..self }
    }

    fn address_range(&self) -> (range: AddressRange) {
        AddressRange { start: 0x8000, end: 0x10000 }
    }

    fn read(&mut self, address: u16) -> (data: u8) {
        let mapped_address: usize = self.mapper.cpu_read(address) as usize;
        if mapped_address < self.program_rom.len() {
            self.program_rom[mapped_address]
        } else {
            0x00
        }
    }

    fn write(&mut self, address: u16, data: u8)
        ensures
            final(self)@ == old(self)@.spec_write(address, data),
    {
        self.mapper.cpu_write(address, data);
    }
}

/// The five header bytes that matter, as the image gives them.
pub struct Header {
    pub prg_banks: u8,
    pub chr_banks: u8,
    pub flags6: u8,
    pub flags7: u8,
    pub prg_ram_banks: u8,
}

pub const HEADER_SIZE: usize = 16;

pub const TRAINER_SIZE: usize = 512;

pub const PRG_BANK_SIZE: usize = 0x4000;

pub const CHR_BANK_SIZE: usize = 0x2000;

pub const PRG_RAM_UNIT: usize = 0x204c;

impl Header {
    /// The header of an image of at least 16 bytes.
    pub open spec fn of(data: Seq<u8>) -> Header {
        Header {
            prg_banks: data[4],
            chr_banks: data[5],
            flags6: data[6],
            flags7: data[7],
            prg_ram_banks: data[8],
        }
    }

    /// Low nibble from the high nibble of `flags6`, high nibble from that of
    /// `flags7`.
    pub open spec fn mapper_number(self) -> u8 {
        (self.flags6 / 16 + (self.flags7 / 16) * 16) as u8
    }

    pub open spec fn mirror(self) -> Mirror {
        if self.flags6 % 2 == 1 {
            Mirror::Vertical
        } else {
            Mirror::Horizontal
        }
    }

    pub open spec fn has_trainer(self) -> bool {
        (self.flags6 / 4) % 2 == 1
    }

    /// Where program data starts in the image.
    pub open spec fn prg_start(self) -> int {
        16 + if self.has_trainer() { 512int } else { 0int }
    }

    /// Where character data starts in the image.
    pub open spec fn chr_start(self) -> int {
        self.prg_start() + self.prg_banks * 0x4000
    }

    /// The length the image must at least have.
    pub open spec fn image_len(self) -> int {
        self.chr_start() + self.chr_banks * 0x2000
    }

    pub open spec fn mapper(self) -> CartridgeMapper {
        if self.mapper_number() == 0 {
            CartridgeMapper::Fixed(Mapper000 { program_size: self.prg_banks })
        } else {
            CartridgeMapper::CharacterSwitched(
                Mapper003 { program_size: self.prg_banks, bank_select: 0 },
            )
        }
    }
}

pub open spec fn has_magic(data: Seq<u8>) -> bool {
    &&& data.len() >= 4
    &&& data[0] == 0x4e
    &&& data[1] == 0x45
    &&& data[2] == 0x53
    &&& data[3] == 0x1a
}

/// The cartridge that a ROM image describes, or the reason it describes
/// none. The checks come in this order: magic bytes, length, mapper.
pub open spec fn parse_image(data: Seq<u8>) -> Result<CartridgeView, CartridgeError> {
    let header = Header::of(data);
    if !has_magic(data) {
        Err(CartridgeError::BadMagic)
    } else if data.len() < 16 || data.len() < header.image_len() {
        Err(CartridgeError::Truncated)
    } else if header.mapper_number() != 0 && header.mapper_number() != 3 {
        Err(CartridgeError::UnsupportedMapper(header.mapper_number()))
    } else {
        Ok(
            CartridgeView {
                program_rom: data.subrange(header.prg_start(), header.chr_start()),
                character_rom: data.subrange(header.chr_start(), header.image_len()),
                program_ram: Seq::new((header.prg_ram_banks * 0x204c) as nat, |i: int| 0u8),
                mapper: header.mapper(),
                valid: true,
                mirror: header.mirror(),
            },
        )
    }
}

/// The cartridge of an image that is taken is valid, has set the
/// mirroring, and holds as many whole banks as the header says: program
/// storage in banks of 16 KiB, character storage in banks of 8 KiB.
pub proof fn lemma_parsed_cartridge(data: Seq<u8>)
    requires
        parse_image(data) is Ok,
    ensures
        ({
            let cartridge = parse_image(data)->Ok_0;
            let header = Header::of(data);
            &&& cartridge.valid
            &&& cartridge.mirror != Mirror::Unset
            &&& cartridge.program_rom.len() == header.prg_banks * 0x4000
            &&& cartridge.character_rom.len() == header.chr_banks * 0x2000
            &&& cartridge.program_ram.len() == header.prg_ram_banks * 0x204c
            &&& forall|i: int|
                0 <= i < cartridge.program_rom.len() ==> cartridge.program_rom[i] == data[header.prg_start()
                    + i]
            &&& forall|i: int|
                0 <= i < cartridge.character_rom.len() ==> cartridge.character_rom[i]
                    == data[header.chr_start() + i]
        }),
{
}

impl Cartridge {
    /// An empty slot: no storage, not valid, no mirroring.
    pub fn new() -> (cartridge: Cartridge)
        ensures
            cartridge@ == Self::empty(),
    {
        Cartridge {
            program_rom: Vec::new(),
            character_rom: Vec::new(),
            program_ram: Vec::new(),
            mapper: CartridgeMapper::Fixed(Mapper000::new(0)),
            valid: false,
            mirror: Mirror::Unset,
        }
    }

    pub open spec fn empty() -> CartridgeView {
        CartridgeView {
            program_rom: Seq::empty(),
            character_rom: Seq::empty(),
            program_ram: Seq::empty(),
            mapper: CartridgeMapper::Fixed(Mapper000 { program_size: 0 }),
            valid: false,
            mirror: Mirror::Unset,
        }
    }

    pub fn ppu_read(&self, address: u16) -> (data: u8)
        ensures
            data == self@.spec_ppu_read(address),
    {
        let mapped_address: usize = self.mapper.ppu_read(address) as usize;
        if mapped_address >= self.character_rom.len() {
            0x00
        } else {
            self.character_rom[mapped_address]
        }
    }

    pub fn ppu_write(&mut self, address: u16, data: u8)
        ensures
            final(self)@ == old(self)@.spec_ppu_write(address, data),
    {
        let mapped_address: usize = self.mapper.ppu_write(address) as usize;
        if mapped_address < self.character_rom.len() {
            self.character_rom[mapped_address] = data;
        }
    }

    /// Replaces the cartridge by the one that the ROM image `data`
    /// describes. An image that is turned down leaves the cartridge as it
    /// was.
    pub fn insert(&mut self, data: &[u8]) -> (result: Result<(), CartridgeError>)
        ensures
            match parse_image(data@) {
                Ok(cartridge) => result is Ok && final(self)@ == cartridge,
                Err(error) => result == Err::<(), CartridgeError>(error) && *final(self) == *old(
                    self,
                ),
            },
    {
        if data.len() < 4 || data[0] != 0x4e || data[1] != 0x45 || data[2] != 0x53 || data[3]
            != 0x1a {
            return Err(CartridgeError::BadMagic);
        }
        if data.len() < HEADER_SIZE {
            return Err(CartridgeError::Truncated);
        }
        let prg_size: u8 = data[4];
        let chr_size: u8 = data[5];
        let mapper_1: u8 = data[6];
        let mapper_2: u8 = data[7];
        let prg_ram_size: u8 = data[8];
        proof {
            lemma_byte_bits(mapper_1);
            lemma_mapper_number(mapper_1, mapper_2);
        }
        let mapper_number: u8 = (mapper_1 >> 4) & 0xf | (mapper_2 & 0xf0);

        let mut byte_position: usize = HEADER_SIZE;
        if (mapper_1 >> 2) & 1 != 0 {
            byte_position += TRAINER_SIZE;
        }
        let prg_len: usize = (prg_size as usize) * PRG_BANK_SIZE;
        let chr_len: usize = (chr_size as usize) * CHR_BANK_SIZE;
        if data.len() < byte_position + prg_len + chr_len {
            return Err(CartridgeError::Truncated);
        }
        let mapper: CartridgeMapper = match mapper_number {
            0 => CartridgeMapper::Fixed(Mapper000::new(prg_size)),
            3 => CartridgeMapper::CharacterSwitched(Mapper003::new(prg_size)),
            _ => {
                return Err(CartridgeError::UnsupportedMapper(mapper_number));
            },
        };

        self.mirror = if (mapper_1 & 0x01) != 0 {
            Mirror::Vertical
        } else {
            Mirror::Horizontal
        };
        self.program_rom = slice_to_vec(slice_subrange(data, byte_position, byte_position + prg_len));
        byte_position += prg_len;
        self.character_rom = slice_to_vec(slice_subrange(data, byte_position, byte_position + chr_len));
        self.program_ram = vec![0u8; (prg_ram_size as usize) * PRG_RAM_UNIT];
        self.mapper = mapper;
        self.valid = true;
        assert(self.program_ram@ =~= Seq::new((prg_ram_size * 0x204c) as nat, |i: int| 0u8));
        Ok(())
    }
}

impl Default for Cartridge {
    fn default() -> (cartridge: Cartridge)
        ensures
            cartridge@ == Self::empty(),
    {
        Cartridge::new()
    }
}

} // verus!
