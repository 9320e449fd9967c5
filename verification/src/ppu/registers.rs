//! The picture unit's registers as records of their fields.

use vstd::prelude::*;
use crate::bits::{
    bit, lemma_byte_bits, lemma_loopy_fields, lemma_loopy_pack, lemma_loopy_sum,
    lemma_loopy_unpack, lemma_status_pack,
};

verus! {

/// The control register, one flag per bit from bit 0 up.
#[derive(Clone, Copy, PartialEq, Eq, Structural, Debug)]
pub struct CtrlReg {
    pub nametable_x: bool,
    pub nametable_y: bool,
    pub increment: bool,
    pub pattern_sprite: bool,
    pub pattern_background: bool,
    pub is_wide_sprite: bool,
    pub master_slave: bool,
    pub generate_nmi: bool,
}

impl CtrlReg {
    /// The register that the byte `b` spells out.
    #[verifier::opaque]
    pub open spec fn of(b: u8) -> CtrlReg {
        CtrlReg {
            nametable_x: b % 2 == 1,
            nametable_y: (b / 2) % 2 == 1,
            increment: (b / 4) % 2 == 1,
            pattern_sprite: (b / 8) % 2 == 1,
            pattern_background: (b / 16) % 2 == 1,
            is_wide_sprite: (b / 32) % 2 == 1,
            master_slave: (b / 64) % 2 == 1,
            generate_nmi: b >= 128,
        }
    }

    pub fn set_byte(&mut self, b: u8)
        ensures
            *final(self) == Self::of(b),
    {
        proof {
            reveal(CtrlReg::of);
            lemma_byte_bits(b);
        }
        self.nametable_x = (b & 1) != 0;
        self.nametable_y = ((b >> 1) & 1) != 0;
        self.increment = ((b >> 2) & 1) != 0;
        self.pattern_sprite = ((b >> 3) & 1) != 0;
        self.pattern_background = ((b >> 4) & 1) != 0;
        self.is_wide_sprite = ((b >> 5) & 1) != 0;
        self.master_slave = ((b >> 6) & 1) != 0;
        self.generate_nmi = ((b >> 7) & 1) != 0;
    }
}

impl Default for CtrlReg {
    fn default() -> (reg: CtrlReg)
        ensures
            reg == Self::of(0),
    {
        proof {
            reveal(CtrlReg::of);
        }
        CtrlReg {
            nametable_x: false,
            nametable_y: false,
            increment: false,
            pattern_sprite: false,
            pattern_background: false,
            is_wide_sprite: false,
            master_slave: false,
            generate_nmi: false,
        }
    }
}

/// The mask register, one flag per bit from bit 0 up.
#[derive(Clone, Copy, PartialEq, Eq, Structural, Debug)]
pub struct MaskReg {
    pub grayscale: bool,
    pub show_background_left: bool,
    pub show_sprites_left: bool,
    pub show_background: bool,
    pub show_sprites: bool,
    pub emphasize_red: bool,
    pub emphasize_green: bool,
    pub emphasize_blue: bool,
}

impl MaskReg {
    /// The register that the byte `b` spells out.
    #[verifier::opaque]
    pub open spec fn of(b: u8) -> MaskReg {
        MaskReg {
            grayscale: b % 2 == 1,
            show_background_left: (b / 2) % 2 == 1,
            show_sprites_left: (b / 4) % 2 == 1,
            show_background: (b / 8) % 2 == 1,
            show_sprites: (b / 16) % 2 == 1,
            emphasize_red: (b / 32) % 2 == 1,
            emphasize_green: (b / 64) % 2 == 1,
            emphasize_blue: b >= 128,
        }
    }

    /// Whether either layer is switched on.
    pub open spec fn spec_rendering(&self) -> bool {
        self.show_background || self.show_sprites
    }

    #[verifier::when_used_as_spec(spec_rendering)]
    pub fn rendering(&self) -> (on: bool)
        ensures
            on == self.spec_rendering(),
    {
        self.show_background || self.show_sprites
    }

    pub fn set_byte(&mut self, b: u8)
        ensures
            *final(self) == Self::of(b),
    {
        proof {
            reveal(MaskReg::of);
            lemma_byte_bits(b);
        }
        self.grayscale = (b & 1) != 0;
        self.show_background_left = ((b >> 1) & 1) != 0;
        self.show_sprites_left = ((b >> 2) & 1) != 0;
        self.show_background = ((b >> 3) & 1) != 0;
        self.show_sprites = ((b >> 4) & 1) != 0;
        self.emphasize_red = ((b >> 5) & 1) != 0;
        self.emphasize_green = ((b >> 6) & 1) != 0;
        self.emphasize_blue = ((b >> 7) & 1) != 0;
    }
}

impl Default for MaskReg {
    fn default() -> (reg: MaskReg)
        ensures
            reg == Self::of(0),
    {
        proof {
            reveal(MaskReg::of);
        }
        MaskReg {
            grayscale: false,
            show_background_left: false,
            show_sprites_left: false,
            show_background: false,
            show_sprites: false,
            emphasize_red: false,
            emphasize_green: false,
            emphasize_blue: false,
        }
    }
}

/// The status register: three flags in the top bits above five bits that
/// carry nothing.
#[derive(Clone, Copy, PartialEq, Eq, Structural, Debug)]
pub struct StatusRegister {
    pub unused: u8,
    pub sprite_overflow: bool,
    pub sprite_zero_hit: bool,
    pub vertical_blank: bool,
}

impl StatusRegister {
    /// The three flags at their places: 32, 64 and 128.
    pub open spec fn flag_bits(self) -> int {
        32 * bit(self.sprite_overflow) + 64 * bit(self.sprite_zero_hit) + 128 * bit(
            self.vertical_blank,
        )
    }

    /// The register as a byte: the flags laid over `unused`, which is their
    /// sum with it when `unused` keeps to its five bits.
    pub fn to_byte(&self) -> (byte: u8)
        ensures
            byte == self.unused | (self.flag_bits() as u8),
            self.unused < 32 ==> byte == self.unused + self.flag_bits(),
    {
        proof {
            lemma_status_pack(
                self.unused,
                self.sprite_overflow,
                self.sprite_zero_hit,
                self.vertical_blank,
            );
        }
        self.unused | (self.sprite_overflow as u8) << 5 | (self.sprite_zero_hit as u8) << 6 | (
        self.vertical_blank as u8) << 7
    }
}

impl Default for StatusRegister {
    fn default() -> (reg: StatusRegister)
        ensures
            reg == (StatusRegister {
                unused: 0,
                sprite_overflow: false,
                sprite_zero_hit: false,
                vertical_blank: false,
            }),
    {
        StatusRegister {
            unused: 0,
            sprite_overflow: false,
            sprite_zero_hit: false,
            vertical_blank: false,
        }
    }
}

/// A scroll and address register of 15 bits (and one spare), taken apart
/// into its fields: from bit 0 up, coarse x (5 bits), coarse y (5 bits), the
/// two nametable selectors, fine y (3 bits), the spare bit.
#[derive(Clone, Copy, PartialEq, Eq, Structural, Debug)]
pub struct LoopyAddress {
    pub coarse_x: u8,
    pub coarse_y: u8,
    pub nametable_x: bool,
    pub nametable_y: bool,
    pub fine_y: u8,
    pub unused: bool,
}

impl LoopyAddress {
    /// Every field keeps to its width.
    pub open spec fn wf(&self) -> bool {
        self.coarse_x < 32 && self.coarse_y < 32 && self.fine_y < 8
    }

    #[verifier::when_used_as_spec(wf)]
    pub fn well_formed(&self) -> (ok: bool)
        ensures
            ok == self.wf(),
    {
        self.coarse_x < 32 && self.coarse_y < 32 && self.fine_y < 8
    }

    /// The fields of the word `data`.
    #[verifier::opaque]
    pub open spec fn of(data: u16) -> LoopyAddress {
        LoopyAddress {
            coarse_x: (data % 32) as u8,
            coarse_y: ((data / 32) % 32) as u8,
            nametable_x: (data / 1024) % 2 == 1,
            nametable_y: (data / 2048) % 2 == 1,
            fine_y: ((data / 4096) % 8) as u8,
            unused: data >= 32768,
        }
    }

    /// The word that the fields make up, each cut to its width.
    #[verifier::opaque]
    pub open spec fn spec_to_data(&self) -> u16 {
        ((self.coarse_x % 32) + 32 * (self.coarse_y % 32) + 1024 * bit(self.nametable_x) + 2048
            * bit(self.nametable_y) + 4096 * (self.fine_y % 8) + 32768 * bit(self.unused)) as u16
    }

    pub fn set_data(&mut self, data: u16)
        ensures
            *final(self) == Self::of(data),
            final(self).wf(),
    {
        proof {
            reveal(LoopyAddress::of);
            lemma_loopy_unpack(data);
        }
        self.coarse_x = (data as u8) & 0b00011111;
        self.coarse_y = ((data >> 5) as u8) & 0b00011111;
        self.nametable_x = ((data >> 10) & 1) != 0;
        self.nametable_y = ((data >> 11) & 1) != 0;
        self.fine_y = ((data >> 12) as u8) & 0b00000111;
        self.unused = ((data >> 15) & 1) != 0;
    }

    #[verifier::when_used_as_spec(spec_to_data)]
    pub fn to_data(&self) -> (data: u16)
        ensures
            data == self.spec_to_data(),
    {
        proof {
            reveal(LoopyAddress::spec_to_data);
            lemma_loopy_pack(
                self.coarse_x,
                self.coarse_y,
                self.nametable_x,
                self.nametable_y,
                self.fine_y,
                self.unused,
            );
        }
        ((self.coarse_x & 0b00011111) as u16) | ((self.coarse_y & 0b00011111) as u16) << 5 | (
        self.nametable_x as u16) << 10 | (self.nametable_y as u16) << 11 | ((self.fine_y
            & 0b00000111) as u16) << 12 | (self.unused as u16) << 15
    }
}

impl Default for LoopyAddress {
    fn default() -> (reg: LoopyAddress)
        ensures
            reg == Self::of(0),
            reg.wf(),
    {
        proof {
            reveal(LoopyAddress::of);
        }
        LoopyAddress {
            coarse_x: 0,
            coarse_y: 0,
            nametable_x: false,
            nametable_y: false,
            fine_y: 0,
            unused: false,
        }
    }
}

impl LoopyAddress {
    /// Taking a word apart and putting it together again gives the word.
    pub proof fn lemma_of_to_data(data: u16)
        ensures
            Self::of(data).spec_to_data() == data,
            Self::of(data).wf(),
    {
        reveal(LoopyAddress::of);
        reveal(LoopyAddress::spec_to_data);
        lemma_loopy_sum(data);
    }

    /// The word that fields make up which keep to their widths, as a sum.
    pub proof fn lemma_to_data_sum(self)
        requires
            self.wf(),
        ensures
            self.spec_to_data() == self.coarse_x + 32 * self.coarse_y + 1024 * bit(
                self.nametable_x,
            ) + 2048 * bit(self.nametable_y) + 4096 * self.fine_y + 32768 * bit(self.unused),
    {
        reveal(LoopyAddress::spec_to_data);
    }

    /// Putting fields that keep to their widths together and taking the
    /// word apart again gives the fields.
    pub proof fn lemma_to_data_of(self)
        requires
            self.wf(),
        ensures
            Self::of(self.spec_to_data()) == self,
    {
        self.lemma_to_data_sum();
        lemma_loopy_fields(
            self.coarse_x,
            self.coarse_y,
            self.nametable_x,
            self.nametable_y,
            self.fine_y,
            self.unused,
        );
        let word = self.spec_to_data();
        assert(Self::of(word) == self) by {
            reveal(LoopyAddress::of);
        }
    }
}

/// Scrolling: how the current address moves while a frame is drawn.
impl LoopyAddress {
    /// One tile to the right. Past the last tile of a nametable the
    /// address enters the nametable beside it.
    pub open spec fn spec_scrolled_x(self) -> LoopyAddress {
        if self.coarse_x == 31 {
            LoopyAddress { coarse_x: 0, nametable_x: !self.nametable_x, ..self }
        } else {
            LoopyAddress { coarse_x: (self.coarse_x + 1) as u8, ..self }
        }
    }

    /// One line down. Past the last line of a tile the address enters the
    /// next row of tiles, past row 29 the nametable below; from row 31,
    /// which lies outside the picture, it goes to row 0 of the same
    /// nametable.
    pub open spec fn spec_scrolled_y(self) -> LoopyAddress {
        if self.fine_y < 7 {
            LoopyAddress { fine_y: (self.fine_y + 1) as u8, ..self }
        } else if self.coarse_y == 29 {
            LoopyAddress { fine_y: 0, coarse_y: 0, nametable_y: !self.nametable_y, ..self }
        } else if self.coarse_y == 31 {
            LoopyAddress { fine_y: 0, coarse_y: 0, ..self }
        } else {
            LoopyAddress { fine_y: 0, coarse_y: (self.coarse_y + 1) as u8, ..self }
        }
    }

    /// The address with the horizontal fields of `other`.
    pub open spec fn spec_with_x_of(self, other: LoopyAddress) -> LoopyAddress {
        LoopyAddress { nametable_x: other.nametable_x, coarse_x: other.coarse_x, ..self }
    }

    /// The address with the vertical fields of `other`.
    pub open spec fn spec_with_y_of(self, other: LoopyAddress) -> LoopyAddress {
        LoopyAddress {
            fine_y: other.fine_y,
            nametable_y: other.nametable_y,
            coarse_y: other.coarse_y,
            ..self
        }
    }

    /// Where in nametable space the tile under the address is named.
    pub open spec fn spec_tile_address(self) -> u16 {
        (0x2000 + 32 * self.coarse_y + self.coarse_x + 1024 * bit(self.nametable_x) + 2048 * bit(
            self.nametable_y,
        )) as u16
    }

    /// Where in nametable space the attribute byte of that tile is: one
    /// byte serves a block of four by four tiles.
    pub open spec fn spec_attribute_address(self) -> u16 {
        (0x23c0 + 2048 * bit(self.nametable_y) + 1024 * bit(self.nametable_x) + (self.coarse_y / 4)
            * 8 + self.coarse_x / 4) as u16
    }

    /// The two palette bits of the tile in an attribute byte: the byte
    /// holds four pairs, one for each two-by-two quarter of the block.
    pub open spec fn spec_attribute_bits(self, attribute: u8) -> u8 {
        let rows: u8 = if (self.coarse_y / 2) % 2 == 1 {
            attribute / 16
        } else {
            attribute
        };
        let quarter: u8 = if (self.coarse_x / 2) % 2 == 1 {
            rows / 4
        } else {
            rows
        };
        quarter % 4
    }

    pub fn scrolled_x(self) -> (address: LoopyAddress)
        requires
            self.wf(),
        ensures
            address == self.spec_scrolled_x(),
            address.wf(),
    {
        if self.coarse_x == 31 {
            LoopyAddress { coarse_x: 0, nametable_x: !self.nametable_x, ..self }
        } else {
            LoopyAddress { coarse_x: self.coarse_x + 1, ..self }
        }
    }

    pub fn scrolled_y(self) -> (address: LoopyAddress)
        requires
            self.wf(),
        ensures
            address == self.spec_scrolled_y(),
            address.wf(),
    {
        if self.fine_y < 7 {
            LoopyAddress { fine_y: self.fine_y + 1, ..self }
        } else if self.coarse_y == 29 {
            LoopyAddress { fine_y: 0, coarse_y: 0, nametable_y: !self.nametable_y, ..self }
        } else if self.coarse_y == 31 {
            LoopyAddress { fine_y: 0, coarse_y: 0, ..self }
        } else {
            LoopyAddress { fine_y: 0, coarse_y: self.coarse_y + 1, ..self }
        }
    }

    pub fn with_x_of(self, other: LoopyAddress) -> (address: LoopyAddress)
        ensures
            address == self.spec_with_x_of(other),
    {
        LoopyAddress { nametable_x: other.nametable_x, coarse_x: other.coarse_x, ..self }
    }

    pub fn with_y_of(self, other: LoopyAddress) -> (address: LoopyAddress)
        ensures
            address == self.spec_with_y_of(other),
    {
        LoopyAddress {
            fine_y: other.fine_y,
            nametable_y: other.nametable_y,
            coarse_y: other.coarse_y,
            ..self
        }
    }

    pub fn tile_address(self) -> (address: u16)
        requires
            self.wf(),
        ensures
            address == self.spec_tile_address(),
            0x2000 <= address <= 0x2fff,
    {
        0x2000 + 32 * (self.coarse_y as u16) + (self.coarse_x as u16) + 1024 * (
        self.nametable_x as u16) + 2048 * (self.nametable_y as u16)
    }

    pub fn attribute_address(self) -> (address: u16)
        requires
            self.wf(),
        ensures
            address == self.spec_attribute_address(),
            0x2000 <= address <= 0x2fff,
    {
        0x23c0 + 2048 * (self.nametable_y as u16) + 1024 * (self.nametable_x as u16) + ((
        self.coarse_y / 4) as u16) * 8 + (self.coarse_x / 4) as u16
    }

    pub fn attribute_bits(self, attribute: u8) -> (bits: u8)
        ensures
            bits == self.spec_attribute_bits(attribute),
            bits < 4,
    {
        let mut bits: u8 = attribute;
        if (self.coarse_y / 2) % 2 == 1 {
            bits = bits / 16;
        }
        if (self.coarse_x / 2) % 2 == 1 {
            bits = bits / 4;
        }
        bits % 4
    }
}

} // verus!
