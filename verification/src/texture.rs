//! A frame as bytes for a display: four bytes to a pixel, red, green, blue
//! and an opaque alpha, row by row.

use vstd::prelude::*;
use crate::ppu::render::Screen;

verus! {

pub struct Texture {
    pub width: usize,
    pub height: usize,
    pub buffer: Vec<u8>,
}

/// The red, green and blue byte of a packed colour, and full alpha.
pub open spec fn spec_channels(c: u32) -> Seq<u8> {
    seq![((c / 0x10000) % 0x100) as u8, ((c / 0x100) % 0x100) as u8, (c % 0x100) as u8, 0xffu8]
}

/// Where the four bytes of the pixel at column `x`, row `y` start in a
/// texture `width` pixels wide.
pub open spec fn spec_offset(width: int, x: int, y: int) -> int {
    (y * width + x) * 4
}

/// A pixel inside a texture lies inside its buffer, four bytes wide.
pub proof fn lemma_offset_in_bounds(width: int, height: int, x: int, y: int)
    requires
        0 <= x < width,
        0 <= y < height,
    ensures
        0 <= spec_offset(width, x, y),
        spec_offset(width, x, y) + 4 <= width * height * 4,
        0 <= y * width <= y * width + x < width * height,
{
    assert(y * width + width <= height * width) by (nonlinear_arith)
        requires
            0 <= y < height,
            0 <= width,
    ;
    assert(0 <= y * width) by (nonlinear_arith)
        requires
            0 <= y,
            0 <= width,
    ;
    assert(height * width == width * height) by (nonlinear_arith);
}

/// Two pixels of a texture do not share their place.
pub proof fn lemma_offsets_differ(width: int, x: int, y: int, column: int, row: int)
    requires
        0 <= x < width,
        0 <= column < width,
        0 <= y,
        0 <= row,
        x != column || y != row,
    ensures
        spec_offset(width, column, row) + 4 <= spec_offset(width, x, y) || spec_offset(
            width,
            x,
            y,
        ) + 4 <= spec_offset(width, column, row),
{
    if row < y {
        assert(row * width + width <= y * width) by (nonlinear_arith)
            requires
                0 <= row < y,
                0 <= width,
        ;
    } else if y < row {
        assert(y * width + width <= row * width) by (nonlinear_arith)
            requires
                0 <= y < row,
                0 <= width,
        ;
    }
}

impl Texture {
    /// The buffer has room for every pixel.
    pub open spec fn wf(self) -> bool {
        self.buffer@.len() == self.width * self.height * 4
    }

    /// The four bytes of the pixel at column `x`, row `y`.
    pub open spec fn spec_pixel(self, x: int, y: int) -> Seq<u8> {
        self.buffer@.subrange(
            spec_offset(self.width as int, x, y),
            spec_offset(self.width as int, x, y) + 4,
        )
    }

    /// A transparent black texture.
    pub fn new(width: usize, height: usize) -> (texture: Texture)
        requires
            width * height * 4 <= usize::MAX,
        ensures
            texture.wf(),
            texture.width == width,
            texture.height == height,
            forall|i: int| 0 <= i < texture.buffer@.len() ==> texture.buffer@[i] == 0,
    {
        assert(width * height <= width * height * 4) by (nonlinear_arith)
            requires
                0 <= width,
                0 <= height,
        ;
        Texture { width, height, buffer: vec![0u8; width * height * 4] }
    }

    /// Sets the pixel at column `x`, row `y` to the packed colour `c`. No
    /// other pixel changes.
    pub fn set_pixel(&mut self, x: usize, y: usize, c: u32)
        requires
            old(self).wf(),
            x < old(self).width,
            y < old(self).height,
        ensures
            final(self).wf(),
            final(self).width == old(self).width,
            final(self).height == old(self).height,
            final(self).spec_pixel(x as int, y as int) == spec_channels(c),
            forall|column: int, row: int|
                0 <= column < old(self).width && 0 <= row < old(self).height && (column != x || row
                    != y) ==> #[trigger] final(self).spec_pixel(column, row) == old(
                    self,
                ).spec_pixel(column, row),
    {
        let ghost width = self.width as int;
        let ghost height = self.height as int;
        let len: usize = self.buffer.len();
        proof {
            lemma_offset_in_bounds(width, height, x as int, y as int);
            assert(width * height * 4 == len);
        }
        let r: u8 = ((c / 0x10000) % 0x100) as u8;
        let g: u8 = ((c / 0x100) % 0x100) as u8;
        let b: u8 = (c % 0x100) as u8;
        let pos: usize = (y * self.width + x) * 4;
        self.buffer[pos] = r;
        self.buffer[pos + 1] = g;
        self.buffer[pos + 2] = b;
        self.buffer[pos + 3] = 0xff;
        proof {
            assert(self.spec_pixel(x as int, y as int) =~= spec_channels(c));
            assert forall|column: int, row: int|
                0 <= column < width && 0 <= row < height && (column != x || row
                    != y) implies #[trigger] self.spec_pixel(column, row) == old(self).spec_pixel(
                column,
                row,
            ) by {
                lemma_offset_in_bounds(width, height, column, row);
                lemma_offsets_differ(width, x as int, y as int, column, row);
                assert(self.spec_pixel(column, row) =~= old(self).spec_pixel(column, row));
            }
        }
    }

    /// Copies a finished frame into a texture of the frame's size.
    pub fn copy_screen(&mut self, screen: &Screen)
        requires
            old(self).wf(),
            old(self).width == 256,
            old(self).height == 240,
        ensures
            final(self).wf(),
            final(self).width == 256,
            final(self).height == 240,
            forall|x: int, y: int|
                0 <= x < 256 && 0 <= y < 240 ==> #[trigger] final(self).spec_pixel(x, y)
                    == spec_channels(screen.buffer[x + y * 256]),
    {
        let mut y: usize = 0;
        while y < 240
            invariant
                y <= 240,
                self.wf(),
                self.width == 256,
                self.height == 240,
                forall|x: int, row: int|
                    0 <= x < 256 && 0 <= row < y ==> #[trigger] self.spec_pixel(x, row)
                        == spec_channels(screen.buffer[x + row * 256]),
            decreases 240 - y,
        {
            let mut x: usize = 0;
            while x < 256
                invariant
                    x <= 256,
                    y < 240,
                    self.wf(),
                    self.width == 256,
                    self.height == 240,
                    forall|column: int, row: int|
                        0 <= column < 256 && 0 <= row < y ==> #[trigger] self.spec_pixel(
                            column,
                            row,
                        ) == spec_channels(screen.buffer[column + row * 256]),
                    forall|column: int|
                        0 <= column < x ==> #[trigger] self.spec_pixel(column, y as int)
                            == spec_channels(screen.buffer[column + y * 256]),
                decreases 256 - x,
            {
                self.set_pixel(x, y, screen.get_pixel(x, y));
                x += 1;
            }
            y += 1;
        }
    }
}

} // verus!
