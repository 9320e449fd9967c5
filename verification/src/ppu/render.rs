//! What the picture unit draws with: the frame buffer, the colour table,
//! sprite records and the shift registers of both layers.

use vstd::prelude::*;
use vstd::array::spec_array_update;
use crate::bits::lemma_flip;

verus! {

pub const DISPLAY_WIDTH: usize = 256;

pub const DISPLAY_HEIGHT: usize = 240;

/// The 64 colours the unit can show, as packed RGB.
pub const PALETTE: [u32; 64] = [
    0x7c7c7c, 0x0000fc, 0x0000bc, 0x4428bc, 0x940084, 0xa80020, 0xa81000, 0x881400,
    0x503000, 0x007800, 0x006800, 0x005800, 0x004058, 0x000000, 0x000000, 0x000000,
    0xbcbcbc, 0x0078f8, 0x0058f8, 0x6844fc, 0xd800cc, 0xe40058, 0xf83800, 0xe45c10,
    0xac7c00, 0x00b800, 0x00a800, 0x00a844, 0x008888, 0x000000, 0x000000, 0x000000,
    0xf8f8f8, 0x3cbcfc, 0x6888fc, 0x9878f8, 0xf878f8, 0xf85898, 0xf87858, 0xfca044,
    0xf8b800, 0xb8f818, 0x58d854, 0x58f898, 0x00e8d8, 0x787878, 0x000000, 0x000000,
    0xfcfcfc, 0xa4e4fc, 0xb8b8f8, 0xd8b8f8, 0xf8b8f8, 0xf8a4c0, 0xf0d0b0, 0xfce0a8,
    0xf8d878, 0xd8f878, 0xb8f8b8, 0xb8f8d8, 0x00fcfc, 0xf8d8f8, 0x000000, 0x000000,
];

/// The frame being drawn, row by row, and whether it is finished.
pub struct Screen {
    pub buffer: Box<[u32; 61440]>,
    pub complete: bool,
}

impl Screen {
    /// The screen with the pixel at column `x`, row `y` set to `c`.
    pub open spec fn spec_set_pixel(self, x: int, y: int, c: u32) -> Screen {
        Screen { buffer: Box::new(spec_array_update(*self.buffer, x + y * 256, c)), ..self }
    }

    /// A black screen. It counts as complete: nothing is being drawn yet.
    pub fn new() -> (screen: Screen)
        ensures
            screen.complete,
            forall|i: int| 0 <= i < 61440 ==> screen.buffer[i] == 0,
    {
        Screen { buffer: Box::new([0u32; 61440]), complete: true }
    }

    /// Hands out the news that a frame is finished, once: says whether one
    /// is, and marks it as taken.
    pub fn take_frame(&mut self) -> (ready: bool)
        ensures
            ready == old(self).complete,
            !final(self).complete,
            final(self).buffer == old(self).buffer,
    {
        let ready: bool = self.complete;
        self.complete = false;
        ready
    }

    pub fn set_pixel(&mut self, x: usize, y: usize, c: u32)
        requires
            x < DISPLAY_WIDTH,
            y < DISPLAY_HEIGHT,
        ensures
            *final(self) == old(self).spec_set_pixel(x as int, y as int, c),
    {
        self.buffer[x + y * DISPLAY_WIDTH] = c;
    }

    pub fn get_pixel(&self, x: usize, y: usize) -> (c: u32)
        requires
            x < DISPLAY_WIDTH,
            y < DISPLAY_HEIGHT,
        ensures
            c == self.buffer[x + y * 256],
    {
        self.buffer[x + y * DISPLAY_WIDTH]
    }
}

impl Default for Screen {
    fn default() -> (screen: Screen)
        ensures
            screen.complete,
            forall|i: int| 0 <= i < 61440 ==> screen.buffer[i] == 0,
    {
        Screen::new()
    }
}

/// One sprite as object memory holds it.
#[derive(Clone, Copy, PartialEq, Eq, Structural, Debug)]
pub struct ObjectAttributeEntry {
    pub y: u8,
    pub id: u8,
    pub attr: u8,
    pub x: u8,
}

impl ObjectAttributeEntry {
    pub open spec fn zero() -> ObjectAttributeEntry {
        ObjectAttributeEntry { y: 0, id: 0, attr: 0, x: 0 }
    }

    /// Byte `field` (0 to 3) of the entry: y, tile, attributes, x.
    pub open spec fn spec_byte(self, field: int) -> u8 {
        if field == 0 {
            self.y
        } else if field == 1 {
            self.id
        } else if field == 2 {
            self.attr
        } else {
            self.x
        }
    }

    /// The entry with byte `field` (0 to 3) replaced.
    pub open spec fn spec_with_byte(self, field: int, data: u8) -> ObjectAttributeEntry {
        if field == 0 {
            ObjectAttributeEntry { y: data, ..self }
        } else if field == 1 {
            ObjectAttributeEntry { id: data, ..self }
        } else if field == 2 {
            ObjectAttributeEntry { attr: data, ..self }
        } else {
            ObjectAttributeEntry { x: data, ..self }
        }
    }
}

impl Default for ObjectAttributeEntry {
    fn default() -> (entry: ObjectAttributeEntry)
        ensures
            entry == Self::zero(),
    {
        ObjectAttributeEntry { y: 0, id: 0, attr: 0, x: 0 }
    }
}

/// The sprites of the line being drawn: up to eight entries, each with the
/// two pattern bytes it shifts out once its x has counted down to zero.
#[derive(Clone, Copy, Debug)]
pub struct SpriteRenderState {
    pub scanline: [ObjectAttributeEntry; 8],
    pub count: u8,
    pub shifter_pattern_lo: [u8; 8],
    pub shifter_pattern_hi: [u8; 8],
}

impl SpriteRenderState {
    pub open spec fn wf(self) -> bool {
        self.count <= 8
    }

    /// One dot for sprite `i`: it moves one step closer, or, once there,
    /// shifts its pattern by one pixel.
    pub open spec fn spec_step(self, i: int) -> SpriteRenderState {
        if self.scanline[i].x > 0 {
            SpriteRenderState {
                scanline: spec_array_update(
                    self.scanline,
                    i,
                    ObjectAttributeEntry { x: (self.scanline[i].x - 1) as u8, ..self.scanline[i] },
                ),
                ..self
            }
        } else {
            SpriteRenderState {
                shifter_pattern_lo: spec_array_update(
                    self.shifter_pattern_lo,
                    i,
                    self.shifter_pattern_lo[i] << 1,
                ),
                shifter_pattern_hi: spec_array_update(
                    self.shifter_pattern_hi,
                    i,
                    self.shifter_pattern_hi[i] << 1,
                ),
                ..self
            }
        }
    }

    /// One dot for each of the first `n` sprites.
    pub open spec fn spec_step_first(self, n: nat) -> SpriteRenderState
        decreases n,
    {
        if n == 0 {
            self
        } else {
            self.spec_step_first((n - 1) as nat).spec_step(n - 1)
        }
    }

    /// One dot for every sprite of the line.
    pub open spec fn spec_update_shifters(self) -> SpriteRenderState {
        self.spec_step_first(self.count as nat)
    }

    /// The state with both pattern bytes of the first `n` sprites cleared.
    pub open spec fn spec_clear_first(self, n: nat) -> SpriteRenderState
        decreases n,
    {
        if n == 0 {
            self
        } else {
            let before = self.spec_clear_first((n - 1) as nat);
            SpriteRenderState {
                shifter_pattern_lo: spec_array_update(before.shifter_pattern_lo, n - 1, 0),
                shifter_pattern_hi: spec_array_update(before.shifter_pattern_hi, n - 1, 0),
                ..before
            }
        }
    }

    /// The state with the pattern bytes of all eight sprites cleared.
    pub open spec fn spec_clear_shifters(self) -> SpriteRenderState {
        self.spec_clear_first(8)
    }

    pub fn update_shifters(&mut self)
        requires
            old(self).wf(),
        ensures
            *final(self) == old(self).spec_update_shifters(),
            final(self).count == old(self).count,
    {
        let mut i: usize = 0;
        while i < self.count as usize
            invariant
                i <= self.count <= 8,
                self.count == old(self).count,
                *self == old(self).spec_step_first(i as nat),
            decreases self.count - i,
        {
            if self.scanline[i].x > 0 {
                let x: u8 = self.scanline[i].x;
                self.scanline[i].x = x - 1;
                assert(self.scanline =~= spec_array_update(
                    old(self).spec_step_first(i as nat).scanline,
                    i as int,
                    ObjectAttributeEntry {
                        x: (x - 1) as u8,
                        ..old(self).spec_step_first(i as nat).scanline[i as int]
                    },
                ));
            } else {
                let lo: u8 = self.shifter_pattern_lo[i];
                let hi: u8 = self.shifter_pattern_hi[i];
                self.shifter_pattern_lo[i] = lo << 1;
                self.shifter_pattern_hi[i] = hi << 1;
            }
            i += 1;
        }
    }

    pub fn clear_shifters(&mut self)
        ensures
            *final(self) == old(self).spec_clear_shifters(),
            final(self).count == old(self).count,
    {
        let mut i: usize = 0;
        while i < 8
            invariant
                i <= 8,
                self.count == old(self).count,
                *self == old(self).spec_clear_first(i as nat),
            decreases 8 - i,
        {
            self.shifter_pattern_lo[i] = 0;
            self.shifter_pattern_hi[i] = 0;
            i += 1;
        }
    }
}

impl Default for SpriteRenderState {
    fn default() -> (state: SpriteRenderState)
        ensures
            state.count == 0,
            forall|i: int|
                0 <= i < 8 ==> state.scanline[i] == ObjectAttributeEntry::zero()
                    && state.shifter_pattern_lo[i] == 0 && state.shifter_pattern_hi[i] == 0,
    {
        SpriteRenderState {
            scanline: [ObjectAttributeEntry { y: 0, id: 0, attr: 0, x: 0 };8],
            count: 0,
            shifter_pattern_lo: [0u8;8],
            shifter_pattern_hi: [0u8;8],
        }
    }
}

/// The background layer's fetch latches and its four 16-bit shift
/// registers: the next tile waits in the low byte while the high byte is
/// shifted out.
#[derive(Clone, Copy, PartialEq, Eq, Structural, Debug)]
pub struct BgRenderState {
    pub tile_id: u8,
    pub tile_attrib: u8,
    pub tile_lsb: u8,
    pub tile_msb: u8,
    pub shifter_pattern_lo: u16,
    pub shifter_pattern_hi: u16,
    pub shifter_attrib_lo: u16,
    pub shifter_attrib_hi: u16,
}

impl BgRenderState {
    /// The fetched tile moved into the low bytes of the shift registers:
    /// its two pattern bytes, and each of its two palette bits spread over
    /// a whole byte.
    pub open spec fn spec_load_shifters(self) -> BgRenderState {
        BgRenderState {
            shifter_pattern_lo: (self.shifter_pattern_lo & 0xff00) | (self.tile_lsb as u16),
            shifter_pattern_hi: (self.shifter_pattern_hi & 0xff00) | (self.tile_msb as u16),
            shifter_attrib_lo: if self.tile_attrib & 0b01 != 0 {
                (self.shifter_attrib_lo & 0xff00) | 0xff
            } else {
                self.shifter_attrib_lo & 0xff00
            },
            shifter_attrib_hi: if self.tile_attrib & 0b10 != 0 {
                (self.shifter_attrib_hi & 0xff00) | 0xff
            } else {
                self.shifter_attrib_hi & 0xff00
            },
            ..self
        }
    }

    /// All four registers moved on by one pixel.
    pub open spec fn spec_update_shifters(self) -> BgRenderState {
        BgRenderState {
            shifter_pattern_lo: self.shifter_pattern_lo << 1,
            shifter_pattern_hi: self.shifter_pattern_hi << 1,
            shifter_attrib_lo: self.shifter_attrib_lo << 1,
            shifter_attrib_hi: self.shifter_attrib_hi << 1,
            ..self
        }
    }

    pub fn load_shifters(&mut self)
        ensures
            *final(self) == old(self).spec_load_shifters(),
    {
        self.shifter_pattern_lo = (self.shifter_pattern_lo & 0xff00) | (self.tile_lsb as u16);
        self.shifter_pattern_hi = (self.shifter_pattern_hi & 0xff00) | (self.tile_msb as u16);
        self.shifter_attrib_lo = self.shifter_attrib_lo & 0xff00;
        if self.tile_attrib & 0b01 != 0 {
            self.shifter_attrib_lo = self.shifter_attrib_lo | 0xff;
        }
        self.shifter_attrib_hi = self.shifter_attrib_hi & 0xff00;
        if self.tile_attrib & 0b10 != 0 {
            self.shifter_attrib_hi = self.shifter_attrib_hi | 0xff;
        }
    }

    pub fn update_shifters(&mut self)
        ensures
            *final(self) == old(self).spec_update_shifters(),
    {
        self.shifter_pattern_lo = self.shifter_pattern_lo << 1;
        self.shifter_pattern_hi = self.shifter_pattern_hi << 1;
        self.shifter_attrib_lo = self.shifter_attrib_lo << 1;
        self.shifter_attrib_hi = self.shifter_attrib_hi << 1;
    }
}

impl Default for BgRenderState {
    fn default() -> (state: BgRenderState)
        ensures
            state == (BgRenderState {
                tile_id: 0,
                tile_attrib: 0,
                tile_lsb: 0,
                tile_msb: 0,
                shifter_pattern_lo: 0,
                shifter_pattern_hi: 0,
                shifter_attrib_lo: 0,
                shifter_attrib_hi: 0,
            }),
    {
        BgRenderState {
            tile_id: 0,
            tile_attrib: 0,
            tile_lsb: 0,
            tile_msb: 0,
            shifter_pattern_lo: 0,
            shifter_pattern_hi: 0,
            shifter_attrib_lo: 0,
            shifter_attrib_hi: 0,
        }
    }
}

/// The byte with its bits in the opposite order.
pub open spec fn spec_flipbyte(b: u8) -> u8 {
    (128 * (b % 2) + 64 * ((b / 2) % 2) + 32 * ((b / 4) % 2) + 16 * ((b / 8) % 2) + 8 * ((b / 16)
        % 2) + 4 * ((b / 32) % 2) + 2 * ((b / 64) % 2) + b / 128) as u8
}

/// Reverses the bits of a byte by swapping halves, then pairs, then
/// neighbours.
#[verifier::when_used_as_spec(spec_flipbyte)]
pub fn flipbyte(b: u8) -> (flipped: u8)
    ensures
        flipped == spec_flipbyte(b),
{
    proof {
        lemma_flip(b);
    }
    let mut b: u8 = (b & 0xf0) >> 4 | (b & 0x0f) << 4;
    b = (b & 0xcc) >> 2 | (b & 0x33) << 2;
    b = (b & 0xaa) >> 1 | (b & 0x55) << 1;
    b
}

} // verus!
