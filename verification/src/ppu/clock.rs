//! One dot of the picture unit: the background and sprite pipelines, the
//! pixel they produce, and the beam's progress through the frame.

use vstd::prelude::*;
use crate::bits::bit;
use crate::cartridge::{Cartridge, CartridgeView, Mirror};
use vstd::array::{spec_array_fill_for_copy_type, spec_array_update};
use crate::ppu::registers::StatusRegister;
use crate::ppu::render::{
    flipbyte, spec_flipbyte, BgRenderState, ObjectAttributeEntry, Screen, SpriteRenderState,
};
use crate::ppu::Ppu;

verus! {

/// Where the beam is within the sequence of frames.
#[derive(Clone, Copy, PartialEq, Eq, Structural, Debug)]
pub struct Beam {
    /// The dot within the line, 0 to 340.
    pub cycle: i16,
    /// The line, -1 to 260.
    pub scanline: i16,
    pub odd_frame: bool,
    /// A frame has been finished and not yet been taken.
    pub complete: bool,
}

impl Beam {
    pub open spec fn wf(self) -> bool {
        0 <= self.cycle <= 340 && -1 <= self.scanline <= 260
    }

    /// The dot the beam is on when the pixel is made: the dot it stands
    /// on, but dot 1 instead of dot 0 of line 0 on an odd frame while
    /// anything is drawn.
    pub open spec fn dot(self, rendering: bool) -> int {
        if self.scanline == 0 && self.cycle == 0 && self.odd_frame && rendering {
            1
        } else {
            self.cycle as int
        }
    }

    /// The beam one tick later: a dot further, after dot 340 on the next
    /// line, after line 260 on the line before the picture of the next
    /// frame, with the frame that ends marked complete.
    pub open spec fn next(self, rendering: bool) -> Beam {
        let dot = self.dot(rendering);
        if dot < 340 {
            Beam { cycle: (dot + 1) as i16, ..self }
        } else if self.scanline < 260 {
            Beam { cycle: 0, scanline: (self.scanline + 1) as i16, ..self }
        } else {
            Beam { cycle: 0, scanline: -1i16, odd_frame: !self.odd_frame, complete: true }
        }
    }

    /// The beam `n` ticks later.
    pub open spec fn after(self, rendering: bool, n: nat) -> Beam
        decreases n,
    {
        if n == 0 {
            self
        } else {
            self.after(rendering, (n - 1) as nat).next(rendering)
        }
    }

    /// How many dots lie between the beam and the end of the frame, or 0
    /// if a finished frame waits to be taken.
    pub open spec fn remaining(self) -> int {
        if self.complete {
            0
        } else {
            (261 - self.scanline) * 341 - self.cycle
        }
    }
}

/// The dots of a frame: 262 lines of 341 dots.
pub const FRAME_DOTS: u32 = 341 * 262;

/// The tick of a frame, counted from 0, on which vertical blank begins: the
/// beam then stands on dot 1 of line 241.
pub const VBLANK_DOT: u32 = 341 * 242 + 1;

/// A frame, tick by tick.
impl Beam {
    /// Whether the beam stands at the start of a frame.
    pub open spec fn at_frame_start(self) -> bool {
        self.cycle == 0 && self.scanline == -1
    }

    /// Whether the frame leaves out a dot: an odd frame does while
    /// anything is drawn.
    pub open spec fn short_frame(self, rendering: bool) -> bool {
        self.odd_frame && rendering
    }

    /// The beam on dot `index` of the frame it is in, counted from the
    /// start of the line before the picture.
    pub open spec fn at_dot(self, index: int) -> Beam {
        Beam { cycle: (index % 341) as i16, scanline: (index / 341 - 1) as i16, ..self }
    }

    /// Within a frame that leaves out no dot, the beam is on dot `n` after
    /// `n` ticks, and nothing else about it has changed.
    pub proof fn lemma_position(self, rendering: bool, n: nat)
        requires
            self.at_frame_start(),
            !self.short_frame(rendering),
            n < FRAME_DOTS,
        ensures
            self.after(rendering, n) == self.at_dot(n as int),
        decreases n,
    {
        if n > 0 {
            self.lemma_position(rendering, (n - 1) as nat);
        }
    }

    /// Within a frame that leaves out a dot, the beam is on dot `n` after
    /// `n` ticks up to the first dot of line 0, and one dot further from
    /// then on.
    pub proof fn lemma_position_short(self, rendering: bool, n: nat)
        requires
            self.at_frame_start(),
            self.short_frame(rendering),
            n < FRAME_DOTS - 1,
        ensures
            self.after(rendering, n) == if n <= 341 {
                self.at_dot(n as int)
            } else {
                self.at_dot(n as int + 1)
            },
        decreases n,
    {
        if n > 0 {
            self.lemma_position_short(rendering, (n - 1) as nat);
        }
    }

    /// A frame takes 341 x 262 ticks, or one tick less if it leaves out a
    /// dot. After them the beam is back at dot 0 of line -1, the frame is
    /// marked complete, and the next frame is odd if this one was even. On
    /// no earlier tick does the mark change.
    pub proof fn lemma_frame(self, rendering: bool)
        requires
            self.at_frame_start(),
        ensures
            ({
                let ticks: nat = if self.short_frame(rendering) {
                    (FRAME_DOTS - 1) as nat
                } else {
                    FRAME_DOTS as nat
                };
                &&& self.after(rendering, ticks) == (Beam {
                    cycle: 0,
                    scanline: -1i16,
                    odd_frame: !self.odd_frame,
                    complete: true,
                })
                &&& forall|n: nat|
                    n < ticks ==> (#[trigger] self.after(rendering, n)).complete == self.complete
                &&& forall|n: nat|
                    n < ticks ==> (#[trigger] self.after(rendering, n)).odd_frame
                        == self.odd_frame
            }),
    {
        if self.short_frame(rendering) {
            self.lemma_position_short(rendering, (FRAME_DOTS - 2) as nat);
            assert forall|n: nat| n < FRAME_DOTS - 1 implies (#[trigger] self.after(
                rendering,
                n,
            )).complete == self.complete && self.after(rendering, n).odd_frame
                == self.odd_frame by {
                self.lemma_position_short(rendering, n);
            }
        } else {
            self.lemma_position(rendering, (FRAME_DOTS - 1) as nat);
            assert forall|n: nat| n < FRAME_DOTS implies (#[trigger] self.after(
                rendering,
                n,
            )).complete == self.complete && self.after(rendering, n).odd_frame
                == self.odd_frame by {
                self.lemma_position(rendering, n);
            }
        }
    }

    /// Whether the beam stands on the dot on which vertical blank begins
    /// and the interrupt is requested.
    pub open spec fn at_vblank(self) -> bool {
        self.scanline == 241 && self.cycle == 1
    }

    /// Within one frame the beam stands on the dot of vertical blank on
    /// one tick only: dot 1 of line 241.
    pub proof fn lemma_vblank_once(self, rendering: bool, n: nat)
        requires
            self.at_frame_start(),
            n < if self.short_frame(rendering) {
                FRAME_DOTS - 1
            } else {
                FRAME_DOTS as int
            },
        ensures
            self.after(rendering, n).at_vblank() <==> n == if self.short_frame(rendering) {
                VBLANK_DOT - 1
            } else {
                VBLANK_DOT as int
            },
    {
        if self.short_frame(rendering) {
            self.lemma_position_short(rendering, n);
        } else {
            self.lemma_position(rendering, n);
        }
    }
}

/// The background pipeline.
impl Ppu {
    /// Where the beam is.
    pub open spec fn beam(self) -> Beam {
        Beam {
            cycle: self.cycle,
            scanline: self.scanline,
            odd_frame: self.odd_frame,
            complete: self.screen.complete,
        }
    }

    /// Whether the beam is on the dot that odd frames leave out.
    pub open spec fn spec_skips(self) -> bool {
        self.scanline == 0 && self.cycle == 0 && self.odd_frame && self.mask.spec_rendering()
    }

    /// On odd frames the first dot of the first picture line is left out
    /// while anything is being drawn.
    #[verifier::opaque]
    pub open spec fn spec_skip_dot(self) -> Ppu {
        if self.spec_skips() {
            Ppu { cycle: 1, ..self }
        } else {
            self
        }
    }

    /// At dot 1 of the line before the picture the status flags and the
    /// sprite patterns are cleared.
    #[verifier::opaque]
    pub open spec fn spec_begin_frame(self) -> Ppu {
        if self.scanline == -1 && self.cycle == 1 {
            Ppu {
                status: StatusRegister {
                    vertical_blank: false,
                    sprite_overflow: false,
                    sprite_zero_hit: false,
                    ..self.status
                },
                sprite_state: self.sprite_state.spec_clear_shifters(),
                ..self
            }
        } else {
            self
        }
    }

    /// The shift registers of each layer that is switched on move by one
    /// pixel; those of the sprites only while the beam is in the picture.
    #[verifier::opaque]
    pub open spec fn spec_update_shifters(self) -> Ppu {
        Ppu {
            bg_state: if self.mask.show_background {
                self.bg_state.spec_update_shifters()
            } else {
                self.bg_state
            },
            sprite_state: if self.mask.show_sprites && 1 <= self.cycle < 258 {
                self.sprite_state.spec_update_shifters()
            } else {
                self.sprite_state
            },
            ..self
        }
    }

    /// The name of the tile under the current address is fetched.
    #[verifier::opaque]
    pub open spec fn spec_fetch_tile_id(self, cart: CartridgeView) -> Ppu {
        Ppu {
            bg_state: BgRenderState {
                tile_id: self.spec_ppu_read(cart, self.vram_address.spec_tile_address()),
                ..self.bg_state
            },
            ..self
        }
    }

    /// The palette bits of the tile under the current address are fetched.
    #[verifier::opaque]
    pub open spec fn spec_fetch_attribute(self, cart: CartridgeView) -> Ppu {
        Ppu {
            bg_state: BgRenderState {
                tile_attrib: self.vram_address.spec_attribute_bits(
                    self.spec_ppu_read(cart, self.vram_address.spec_attribute_address()),
                ),
                ..self.bg_state
            },
            ..self
        }
    }

    /// Where the pattern of the fetched tile for the current line is: 16
    /// bytes to a tile, the low plane in the first eight, the high plane in
    /// the last eight, in the pattern table that the control register
    /// names.
    pub open spec fn spec_pattern_address(self, high: bool) -> u16 {
        (4096 * bit(self.ctrl.pattern_background) + 16 * self.bg_state.tile_id
            + self.vram_address.fine_y + 8 * bit(high)) as u16
    }

    /// One plane of the fetched tile's pattern is fetched.
    #[verifier::opaque]
    pub open spec fn spec_fetch_pattern(self, cart: CartridgeView, high: bool) -> Ppu {
        let byte = self.spec_ppu_read(cart, self.spec_pattern_address(high));
        if high {
            Ppu { bg_state: BgRenderState { tile_msb: byte, ..self.bg_state }, ..self }
        } else {
            Ppu { bg_state: BgRenderState { tile_lsb: byte, ..self.bg_state }, ..self }
        }
    }

    /// While anything is drawn, the current address moves a tile to the
    /// right.
    #[verifier::opaque]
    pub open spec fn spec_increment_scroll_x(self) -> Ppu {
        if self.mask.spec_rendering() {
            Ppu { vram_address: self.vram_address.spec_scrolled_x(), ..self }
        } else {
            self
        }
    }

    /// While anything is drawn, the current address moves a line down.
    #[verifier::opaque]
    pub open spec fn spec_increment_scroll_y(self) -> Ppu {
        if self.mask.spec_rendering() {
            Ppu { vram_address: self.vram_address.spec_scrolled_y(), ..self }
        } else {
            self
        }
    }

    /// While anything is drawn, the current address takes its horizontal
    /// fields from the latched one.
    #[verifier::opaque]
    pub open spec fn spec_transfer_address_x(self) -> Ppu {
        if self.mask.spec_rendering() {
            Ppu { vram_address: self.vram_address.spec_with_x_of(self.tram_address), ..self }
        } else {
            self
        }
    }

    /// While anything is drawn, the current address takes its vertical
    /// fields from the latched one.
    #[verifier::opaque]
    pub open spec fn spec_transfer_address_y(self) -> Ppu {
        if self.mask.spec_rendering() {
            Ppu { vram_address: self.vram_address.spec_with_y_of(self.tram_address), ..self }
        } else {
            self
        }
    }

    /// The fetched tile enters the shift registers.
    #[verifier::opaque]
    pub open spec fn spec_load_shifters(self) -> Ppu {
        Ppu { bg_state: self.bg_state.spec_load_shifters(), ..self }
    }

    /// The step of the eight-dot fetch cycle that falls on the current
    /// dot, the cycle starting on dot 1: tile name, palette bits, low
    /// plane, high plane, and the move to the next tile.
    #[verifier::opaque]
    pub open spec fn spec_fetch_step(self, cart: CartridgeView) -> Ppu {
        let step = (self.cycle - 1) % 8;
        if step == 0 {
            self.spec_load_shifters().spec_fetch_tile_id(cart)
        } else if step == 2 {
            self.spec_fetch_attribute(cart)
        } else if step == 4 {
            self.spec_fetch_pattern(cart, false)
        } else if step == 6 {
            self.spec_fetch_pattern(cart, true)
        } else if step == 7 {
            self.spec_increment_scroll_x()
        } else {
            self
        }
    }

    /// Whether the background is fetched on the current dot.
    pub open spec fn spec_in_fetch_window(self) -> bool {
        (2 <= self.cycle < 258) || (321 <= self.cycle < 338)
    }

    /// The background pipeline's work on the current dot.
    #[verifier::opaque]
    pub open spec fn spec_fetch_background(self, cart: CartridgeView) -> Ppu {
        if self.spec_in_fetch_window() {
            self.spec_update_shifters().spec_fetch_step(cart)
        } else {
            self
        }
    }

    /// What happens to the current address at the end of a line: down a
    /// line at dot 256, back to the left edge at dot 257.
    #[verifier::opaque]
    pub open spec fn spec_end_of_line(self) -> Ppu {
        let ppu = if self.cycle == 256 {
            self.spec_increment_scroll_y()
        } else {
            self
        };
        if ppu.cycle == 257 {
            ppu.spec_load_shifters().spec_transfer_address_x()
        } else {
            ppu
        }
    }

    /// The tile name fetched again at dots 338 and 340, and, on the line
    /// before the picture, the current address set back to the top during
    /// dots 280 to 304.
    #[verifier::opaque]
    pub open spec fn spec_end_of_fetches(self, cart: CartridgeView) -> Ppu {
        let ppu = if self.cycle == 338 || self.cycle == 340 {
            self.spec_fetch_tile_id(cart)
        } else {
            self
        };
        if ppu.scanline == -1 && 280 <= ppu.cycle < 305 {
            ppu.spec_transfer_address_y()
        } else {
            ppu
        }
    }

    /// What only moves the pipelines: the beam stays, and so do the screen
    /// and the request for an interrupt.
    pub open spec fn drawn_from(self, before: Ppu) -> bool {
        &&& self.wf()
        &&& self.cycle == before.cycle
        &&& self.scanline == before.scanline
        &&& self.odd_frame == before.odd_frame
        &&& self.screen == before.screen
        &&& self.nmi == before.nmi
        &&& self.mask == before.mask
        &&& self.ctrl == before.ctrl
    }

    pub fn skip_dot(&mut self)
        requires
            old(self).wf(),
        ensures
            *final(self) == old(self).spec_skip_dot(),
            final(self).wf(),
            final(self).scanline == old(self).scanline,
            final(self).cycle == if old(self).spec_skips() {
                1
            } else {
                old(self).cycle
            },
            final(self).odd_frame == old(self).odd_frame,
            final(self).screen == old(self).screen,
            final(self).nmi == old(self).nmi,
            final(self).mask == old(self).mask,
            final(self).ctrl == old(self).ctrl,
    {
        proof {
            reveal(Ppu::spec_skip_dot);
        }
        if self.scanline == 0 && self.cycle == 0 && self.odd_frame && self.mask.rendering() {
            self.cycle = 1;
        }
    }

    pub fn begin_frame(&mut self)
        requires
            old(self).wf(),
        ensures
            *final(self) == old(self).spec_begin_frame(),
            final(self).drawn_from(*old(self)),
    {
        proof {
            reveal(Ppu::spec_begin_frame);
        }
        if self.scanline == -1 && self.cycle == 1 {
            self.status = StatusRegister {
                vertical_blank: false,
                sprite_overflow: false,
                sprite_zero_hit: false,
                ..self.status
            };
            self.sprite_state.clear_shifters();
        }
    }

    pub fn update_shifters(&mut self)
        requires
            old(self).wf(),
        ensures
            *final(self) == old(self).spec_update_shifters(),
            final(self).drawn_from(*old(self)),
    {
        proof {
            reveal(Ppu::spec_update_shifters);
        }
        if self.mask.show_background {
            self.bg_state.update_shifters();
        }
        if self.mask.show_sprites && self.cycle >= 1 && self.cycle < 258 {
            self.sprite_state.update_shifters();
        }
    }

    pub fn fetch_tile_id(&mut self, cart: &Cartridge)
        requires
            old(self).wf(),
            cart.mirror != Mirror::Unset,
        ensures
            *final(self) == old(self).spec_fetch_tile_id(cart@),
            final(self).drawn_from(*old(self)),
    {
        proof {
            reveal(Ppu::spec_fetch_tile_id);
        }
        let tile_id: u8 = self.ppu_read(cart, self.vram_address.tile_address());
        self.bg_state = BgRenderState { tile_id, ..self.bg_state };
    }

    pub fn fetch_attribute(&mut self, cart: &Cartridge)
        requires
            old(self).wf(),
            cart.mirror != Mirror::Unset,
        ensures
            *final(self) == old(self).spec_fetch_attribute(cart@),
            final(self).drawn_from(*old(self)),
    {
        proof {
            reveal(Ppu::spec_fetch_attribute);
        }
        let attribute: u8 = self.ppu_read(cart, self.vram_address.attribute_address());
        let tile_attrib: u8 = self.vram_address.attribute_bits(attribute);
        self.bg_state = BgRenderState { tile_attrib, ..self.bg_state };
    }

    pub fn pattern_address(&self, high: bool) -> (address: u16)
        requires
            self.wf(),
        ensures
            address == self.spec_pattern_address(high),
            address < 0x2000,
    {
        4096 * (self.ctrl.pattern_background as u16) + 16 * (self.bg_state.tile_id as u16) + (
        self.vram_address.fine_y as u16) + 8 * (high as u16)
    }

    pub fn fetch_pattern(&mut self, cart: &Cartridge, high: bool)
        requires
            old(self).wf(),
        ensures
            *final(self) == old(self).spec_fetch_pattern(cart@, high),
            final(self).drawn_from(*old(self)),
    {
        proof {
            reveal(Ppu::spec_fetch_pattern);
        }
        let byte: u8 = self.ppu_read(cart, self.pattern_address(high));
        if high {
            self.bg_state = BgRenderState { tile_msb: byte, ..self.bg_state };
        } else {
            self.bg_state = BgRenderState { tile_lsb: byte, ..self.bg_state };
        }
    }

    pub fn increment_scroll_x(&mut self)
        requires
            old(self).wf(),
        ensures
            *final(self) == old(self).spec_increment_scroll_x(),
            final(self).drawn_from(*old(self)),
    {
        proof {
            reveal(Ppu::spec_increment_scroll_x);
        }
        if self.mask.rendering() {
            self.vram_address = self.vram_address.scrolled_x();
        }
    }

    pub fn increment_scroll_y(&mut self)
        requires
            old(self).wf(),
        ensures
            *final(self) == old(self).spec_increment_scroll_y(),
            final(self).drawn_from(*old(self)),
    {
        proof {
            reveal(Ppu::spec_increment_scroll_y);
        }
        if self.mask.rendering() {
            self.vram_address = self.vram_address.scrolled_y();
        }
    }

    pub fn transfer_address_x(&mut self)
        requires
            old(self).wf(),
        ensures
            *final(self) == old(self).spec_transfer_address_x(),
            final(self).drawn_from(*old(self)),
    {
        proof {
            reveal(Ppu::spec_transfer_address_x);
        }
        if self.mask.rendering() {
            self.vram_address = self.vram_address.with_x_of(self.tram_address);
        }
    }

    pub fn transfer_address_y(&mut self)
        requires
            old(self).wf(),
        ensures
            *final(self) == old(self).spec_transfer_address_y(),
            final(self).drawn_from(*old(self)),
    {
        proof {
            reveal(Ppu::spec_transfer_address_y);
        }
        if self.mask.rendering() {
            self.vram_address = self.vram_address.with_y_of(self.tram_address);
        }
    }

    pub fn load_shifters(&mut self)
        requires
            old(self).wf(),
        ensures
            *final(self) == old(self).spec_load_shifters(),
            final(self).drawn_from(*old(self)),
    {
        proof {
            reveal(Ppu::spec_load_shifters);
        }
        self.bg_state.load_shifters();
    }

    pub fn fetch_step(&mut self, cart: &Cartridge)
        requires
            old(self).wf(),
            cart.mirror != Mirror::Unset,
        ensures
            *final(self) == old(self).spec_fetch_step(cart@),
            final(self).drawn_from(*old(self)),
    {
        proof {
            reveal(Ppu::spec_fetch_step);
        }
        proof {
            vstd::arithmetic::div_mod::lemma_mod_multiples_vanish(1, self.cycle - 1, 8);
        }
        let step: i16 = (self.cycle + 7) % 8;
        if step == 0 {
            self.load_shifters();
            self.fetch_tile_id(cart);
        } else if step == 2 {
            self.fetch_attribute(cart);
        } else if step == 4 {
            self.fetch_pattern(cart, false);
        } else if step == 6 {
            self.fetch_pattern(cart, true);
        } else if step == 7 {
            self.increment_scroll_x();
        }
    }

    pub fn fetch_background(&mut self, cart: &Cartridge)
        requires
            old(self).wf(),
            cart.mirror != Mirror::Unset,
        ensures
            *final(self) == old(self).spec_fetch_background(cart@),
            final(self).drawn_from(*old(self)),
    {
        proof {
            reveal(Ppu::spec_fetch_background);
        }
        if (self.cycle >= 2 && self.cycle < 258) || (self.cycle >= 321 && self.cycle < 338) {
            self.update_shifters();
            self.fetch_step(cart);
        }
    }

    pub fn end_of_line(&mut self)
        requires
            old(self).wf(),
        ensures
            *final(self) == old(self).spec_end_of_line(),
            final(self).drawn_from(*old(self)),
    {
        proof {
            reveal(Ppu::spec_end_of_line);
        }
        if self.cycle == 256 {
            self.increment_scroll_y();
        }
        if self.cycle == 257 {
            self.load_shifters();
            self.transfer_address_x();
        }
    }

    pub fn end_of_fetches(&mut self, cart: &Cartridge)
        requires
            old(self).wf(),
            cart.mirror != Mirror::Unset,
        ensures
            *final(self) == old(self).spec_end_of_fetches(cart@),
            final(self).drawn_from(*old(self)),
    {
        proof {
            reveal(Ppu::spec_end_of_fetches);
        }
        if self.cycle == 338 || self.cycle == 340 {
            self.fetch_tile_id(cart);
        }
        if self.scanline == -1 && self.cycle >= 280 && self.cycle < 305 {
            self.transfer_address_y();
        }
    }
}

/// The sprite pipeline.
impl Ppu {
    /// Whether a sprite whose top is at line `y` covers the current line:
    /// sprites are 8 lines high, or 16 if the control register says so.
    pub open spec fn spec_on_line(self, y: u8) -> bool {
        let height: int = if self.ctrl.is_wide_sprite {
            16
        } else {
            8
        };
        0 <= self.scanline - y < height
    }

    /// Before the search: no sprite chosen, all patterns cleared.
    #[verifier::opaque]
    pub open spec fn spec_evaluate_start(self) -> Ppu {
        Ppu {
            sprite_state: SpriteRenderState {
                scanline: spec_array_fill_for_copy_type::<ObjectAttributeEntry, 8>(
                    ObjectAttributeEntry::zero(),
                ),
                count: 0,
                ..self.sprite_state
            }.spec_clear_shifters(),
            sprite_zero_hit_possible: false,
            ..self
        }
    }

    /// Entry `index` of object memory is looked at: if it covers the
    /// line, it is chosen, or, with eight chosen already, the overflow flag
    /// is set. Choosing entry 0 is remembered.
    #[verifier::opaque]
    pub open spec fn spec_evaluate_entry(self, index: int) -> Ppu {
        let entry = self.oam_memory[index];
        if !self.spec_on_line(entry.y) {
            self
        } else if self.sprite_state.count < 8 {
            Ppu {
                sprite_state: SpriteRenderState {
                    scanline: spec_array_update(
                        self.sprite_state.scanline,
                        self.sprite_state.count as int,
                        entry,
                    ),
                    count: (self.sprite_state.count + 1) as u8,
                    ..self.sprite_state
                },
                sprite_zero_hit_possible: self.sprite_zero_hit_possible || index == 0,
                ..self
            }
        } else {
            Ppu { status: StatusRegister { sprite_overflow: true, ..self.status }, ..self }
        }
    }

    /// The search after the first `n` entries of object memory.
    pub open spec fn spec_evaluate_first(self, n: nat) -> Ppu
        decreases n,
    {
        if n == 0 {
            self.spec_evaluate_start()
        } else {
            self.spec_evaluate_first((n - 1) as nat).spec_evaluate_entry(n - 1)
        }
    }

    /// At dot 257 of a picture line the sprites of the line are chosen:
    /// the first eight entries of object memory, in their order, that
    /// cover it. A ninth sets the overflow flag.
    #[verifier::opaque]
    pub open spec fn spec_evaluate_sprites(self) -> Ppu {
        if self.cycle == 257 && self.scanline >= 0 {
            self.spec_evaluate_first(64)
        } else {
            self
        }
    }

    /// The line of its tile that a sprite shows on the current line,
    /// counted from the other end if the sprite is flipped vertically.
    pub open spec fn spec_sprite_row(self, entry: ObjectAttributeEntry) -> int {
        if entry.attr >= 128 {
            (7 - (self.scanline - entry.y)) % 8
        } else {
            (self.scanline - entry.y) % 8
        }
    }

    /// Where the low plane of a sprite's pattern for the current line is.
    /// A sprite of 8 lines takes its tile from the pattern table that the
    /// control register names; one of 16 lines names the table in bit 0 of
    /// its tile number.
    pub open spec fn spec_sprite_address(self, entry: ObjectAttributeEntry) -> u16 {
        if !self.ctrl.is_wide_sprite {
            (4096 * bit(self.ctrl.pattern_sprite) + 16 * entry.id + self.spec_sprite_row(
                entry,
            )) as u16
        } else {
            (4096 * (entry.id % 2) + 16 * (entry.id - entry.id % 2) + self.spec_sprite_row(
                entry,
            )) as u16
        }
    }

    /// One plane of a sprite's pattern as it enters the shift register:
    /// bit-reversed if the sprite is flipped horizontally.
    pub open spec fn spec_sprite_plane(self, cart: CartridgeView, address: u16, attr: u8) -> u8 {
        let byte = self.spec_ppu_read(cart, address);
        if (attr / 64) % 2 == 1 {
            spec_flipbyte(byte)
        } else {
            byte
        }
    }

    /// The pattern of chosen sprite `i` is fetched.
    #[verifier::opaque]
    pub open spec fn spec_fetch_sprite(self, cart: CartridgeView, i: int) -> Ppu {
        let entry = self.sprite_state.scanline[i];
        let address = self.spec_sprite_address(entry);
        Ppu {
            sprite_state: SpriteRenderState {
                shifter_pattern_lo: spec_array_update(
                    self.sprite_state.shifter_pattern_lo,
                    i,
                    self.spec_sprite_plane(cart, address, entry.attr),
                ),
                shifter_pattern_hi: spec_array_update(
                    self.sprite_state.shifter_pattern_hi,
                    i,
                    self.spec_sprite_plane(cart, (address + 8) as u16, entry.attr),
                ),
                ..self.sprite_state
            },
            ..self
        }
    }

    /// The patterns of the first `n` chosen sprites are fetched.
    pub open spec fn spec_fetch_first(self, cart: CartridgeView, n: nat) -> Ppu
        decreases n,
    {
        if n == 0 {
            self
        } else {
            self.spec_fetch_first(cart, (n - 1) as nat).spec_fetch_sprite(cart, n - 1)
        }
    }

    /// At dot 340 the patterns of all chosen sprites are fetched.
    #[verifier::opaque]
    pub open spec fn spec_fetch_sprites(self, cart: CartridgeView) -> Ppu {
        if self.cycle == 340 {
            self.spec_fetch_first(cart, self.sprite_state.count as nat)
        } else {
            self
        }
    }

    pub fn on_line(&self, y: u8) -> (covers: bool)
        requires
            self.wf(),
        ensures
            covers == self.spec_on_line(y),
    {
        let diff: i16 = self.scanline - (y as i16);
        let height: i16 = if self.ctrl.is_wide_sprite {
            16
        } else {
            8
        };
        diff >= 0 && diff < height
    }

    pub fn evaluate_start(&mut self)
        requires
            old(self).wf(),
        ensures
            *final(self) == old(self).spec_evaluate_start(),
            final(self).drawn_from(*old(self)),
            final(self).oam_memory == old(self).oam_memory,
            final(self).sprite_state.count == 0,
    {
        proof {
            reveal(Ppu::spec_evaluate_start);
        }
        let mut state: SpriteRenderState = SpriteRenderState {
            scanline: [ObjectAttributeEntry { y: 0, id: 0, attr: 0, x: 0 };8],
            count: 0,
            ..self.sprite_state
        };
        state.clear_shifters();
        self.sprite_state = state;
        self.sprite_zero_hit_possible = false;
    }

    pub fn evaluate_entry(&mut self, index: usize)
        requires
            old(self).wf(),
            index < 64,
        ensures
            *final(self) == old(self).spec_evaluate_entry(index as int),
            final(self).drawn_from(*old(self)),
            final(self).oam_memory == old(self).oam_memory,
    {
        proof {
            reveal(Ppu::spec_evaluate_entry);
        }
        let entry: ObjectAttributeEntry = self.oam_memory[index];
        if self.on_line(entry.y) {
            if self.sprite_state.count < 8 {
                let mut state: SpriteRenderState = self.sprite_state;
                state.scanline[state.count as usize] = entry;
                state.count = state.count + 1;
                self.sprite_state = state;
                self.sprite_zero_hit_possible = self.sprite_zero_hit_possible || index == 0;
            } else {
                self.status = StatusRegister { sprite_overflow: true, ..self.status };
            }
        }
    }

    pub fn evaluate_sprites(&mut self)
        requires
            old(self).wf(),
        ensures
            *final(self) == old(self).spec_evaluate_sprites(),
            final(self).drawn_from(*old(self)),
    {
        proof {
            reveal(Ppu::spec_evaluate_sprites);
        }
        if self.cycle == 257 && self.scanline >= 0 {
            self.evaluate_start();
            let mut index: usize = 0;
            while index < 64
                invariant
                    index <= 64,
                    *self == old(self).spec_evaluate_first(index as nat),
                    self.drawn_from(*old(self)),
                decreases 64 - index,
            {
                self.evaluate_entry(index);
                index += 1;
            }
        }
    }

    pub fn sprite_row(&self, entry: ObjectAttributeEntry) -> (row: u16)
        requires
            self.wf(),
        ensures
            row == self.spec_sprite_row(entry),
            row < 8,
    {
        let scan_y: i16 = self.scanline - (entry.y as i16);
        let turned: i16 = if entry.attr >= 128 {
            7 - scan_y
        } else {
            scan_y
        };
        proof {
            vstd::arithmetic::div_mod::lemma_mod_multiples_vanish(32, turned as int, 8);
        }
        ((turned + 256) % 8) as u16
    }

    pub fn sprite_address(&self, entry: ObjectAttributeEntry) -> (address: u16)
        requires
            self.wf(),
        ensures
            address == self.spec_sprite_address(entry),
            address < 0x2000 - 8,
    {
        let row: u16 = self.sprite_row(entry);
        if !self.ctrl.is_wide_sprite {
            4096 * (self.ctrl.pattern_sprite as u16) + 16 * (entry.id as u16) + row
        } else {
            4096 * ((entry.id % 2) as u16) + 16 * ((entry.id - entry.id % 2) as u16) + row
        }
    }

    pub fn sprite_plane(&self, cart: &Cartridge, address: u16, attr: u8) -> (plane: u8)
        requires
            Self::spec_can_ppu_read(cart@, address),
        ensures
            plane == self.spec_sprite_plane(cart@, address, attr),
    {
        let byte: u8 = self.ppu_read(cart, address);
        if (attr / 64) % 2 == 1 {
            flipbyte(byte)
        } else {
            byte
        }
    }

    pub fn fetch_sprite(&mut self, cart: &Cartridge, i: usize)
        requires
            old(self).wf(),
            i < 8,
        ensures
            *final(self) == old(self).spec_fetch_sprite(cart@, i as int),
            final(self).drawn_from(*old(self)),
            final(self).sprite_state.count == old(self).sprite_state.count,
    {
        proof {
            reveal(Ppu::spec_fetch_sprite);
        }
        let entry: ObjectAttributeEntry = self.sprite_state.scanline[i];
        let address: u16 = self.sprite_address(entry);
        let low: u8 = self.sprite_plane(cart, address, entry.attr);
        let high: u8 = self.sprite_plane(cart, address + 8, entry.attr);
        let mut state: SpriteRenderState = self.sprite_state;
        state.shifter_pattern_lo[i] = low;
        state.shifter_pattern_hi[i] = high;
        self.sprite_state = state;
    }

    pub fn fetch_sprites(&mut self, cart: &Cartridge)
        requires
            old(self).wf(),
        ensures
            *final(self) == old(self).spec_fetch_sprites(cart@),
            final(self).drawn_from(*old(self)),
    {
        proof {
            reveal(Ppu::spec_fetch_sprites);
        }
        if self.cycle == 340 {
            let count: usize = self.sprite_state.count as usize;
            let mut i: usize = 0;
            while i < count
                invariant
                    i <= count <= 8,
                    count == old(self).sprite_state.count,
                    self.sprite_state.count == count,
                    *self == old(self).spec_fetch_first(cart@, i as nat),
                    self.drawn_from(*old(self)),
                decreases count - i,
            {
                self.fetch_sprite(cart, i);
                i += 1;
            }
        }
    }
}

/// What one layer offers for the current dot: a pixel value, 0 for
/// transparent, and the palette to look it up in.
#[derive(Clone, Copy, PartialEq, Eq, Structural, Debug)]
pub struct Pixel {
    pub pixel: u8,
    pub palette: u8,
}

/// What the sprites offer for the current dot.
#[derive(Clone, Copy, PartialEq, Eq, Structural, Debug)]
pub struct SpritePixel {
    pub pixel: u8,
    pub palette: u8,
    /// The sprite goes in front of the background.
    pub priority: bool,
    /// The pixel comes from the first sprite chosen for the line.
    pub zero: bool,
}

impl SpritePixel {
    pub open spec fn transparent() -> SpritePixel {
        SpritePixel { pixel: 0, palette: 0, priority: false, zero: false }
    }
}

impl SpriteRenderState {
    /// The pixel that chosen sprite `i` shows on the current dot: the top
    /// bits of its two pattern bytes once its x has counted down, and
    /// nothing before.
    pub open spec fn spec_pixel_at(self, i: int) -> u8 {
        if self.scanline[i].x == 0 {
            (2 * bit(self.shifter_pattern_hi[i] >= 128) + bit(
                self.shifter_pattern_lo[i] >= 128,
            )) as u8
        } else {
            0
        }
    }

    /// The first sprite at or after place `from` that shows a pixel on the
    /// current dot, or `count` if there is none.
    pub open spec fn spec_first_opaque(self, from: int) -> int
        decreases self.count - from,
    {
        if from < 0 || from >= self.count {
            self.count as int
        } else if self.spec_pixel_at(from) != 0 {
            from
        } else {
            self.spec_first_opaque(from + 1)
        }
    }

    /// What the sprites of the line offer: the pixel of the first of them
    /// that shows one.
    pub open spec fn spec_pixel(self) -> SpritePixel {
        let first = self.spec_first_opaque(0);
        if first < self.count {
            SpritePixel {
                pixel: self.spec_pixel_at(first),
                palette: (self.scanline[first].attr % 4 + 4) as u8,
                priority: (self.scanline[first].attr / 32) % 2 == 0,
                zero: first == 0,
            }
        } else {
            SpritePixel::transparent()
        }
    }

    /// The first sprite that shows a pixel is one that shows a pixel, and
    /// none before it does.
    pub proof fn lemma_first_opaque(self, from: int)
        requires
            0 <= from <= self.count,
        ensures
            from <= self.spec_first_opaque(from) <= self.count,
            self.spec_first_opaque(from) < self.count ==> self.spec_pixel_at(
                self.spec_first_opaque(from),
            ) != 0,
            forall|i: int|
                from <= i < self.spec_first_opaque(from) ==> #[trigger] self.spec_pixel_at(i) == 0,
        decreases self.count - from,
    {
        if from < self.count && self.spec_pixel_at(from) == 0 {
            self.lemma_first_opaque(from + 1);
        }
    }

    pub fn pixel_at(&self, i: usize) -> (pixel: u8)
        requires
            i < 8,
        ensures
            pixel == self.spec_pixel_at(i as int),
            pixel < 4,
    {
        if self.scanline[i].x == 0 {
            2 * ((self.shifter_pattern_hi[i] >= 128) as u8) + ((self.shifter_pattern_lo[i]
                >= 128) as u8)
        } else {
            0
        }
    }

    pub fn first_opaque(&self) -> (first: usize)
        requires
            self.wf(),
        ensures
            first == self.spec_first_opaque(0),
            first <= self.count,
            first < self.count ==> self.spec_pixel_at(first as int) != 0,
    {
        let mut i: usize = 0;
        while i < self.count as usize
            invariant
                i <= self.count <= 8,
                self.spec_first_opaque(0) == self.spec_first_opaque(i as int),
            decreases self.count - i,
        {
            if self.pixel_at(i) != 0 {
                return i;
            }
            i += 1;
        }
        i
    }

    pub fn pixel(&self) -> (pixel: SpritePixel)
        requires
            self.wf(),
        ensures
            pixel == self.spec_pixel(),
            pixel.pixel < 4,
            pixel.palette < 8,
    {
        let first: usize = self.first_opaque();
        if first < self.count as usize {
            SpritePixel {
                pixel: self.pixel_at(first),
                palette: self.scanline[first].attr % 4 + 4,
                priority: (self.scanline[first].attr / 32) % 2 == 0,
                zero: first == 0,
            }
        } else {
            SpritePixel { pixel: 0, palette: 0, priority: false, zero: false }
        }
    }
}

/// Which layer shows: the one that is not transparent, and where both
/// show something, the sprite if it has priority and the background if not.
/// Where both are transparent, entry 0 of palette 0 shows.
pub open spec fn spec_composite(bg: Pixel, fg: SpritePixel) -> Pixel {
    if fg.pixel == 0 {
        if bg.pixel == 0 {
            Pixel { pixel: 0, palette: 0 }
        } else {
            bg
        }
    } else if bg.pixel == 0 || fg.priority {
        Pixel { pixel: fg.pixel, palette: fg.palette }
    } else {
        bg
    }
}

#[verifier::when_used_as_spec(spec_composite)]
pub fn composite(bg: Pixel, fg: SpritePixel) -> (shown: Pixel)
    ensures
        shown == spec_composite(bg, fg),
{
    if fg.pixel == 0 {
        if bg.pixel == 0 {
            Pixel { pixel: 0, palette: 0 }
        } else {
            bg
        }
    } else if bg.pixel == 0 || fg.priority {
        Pixel { pixel: fg.pixel, palette: fg.palette }
    } else {
        bg
    }
}

/// The pixel of the current dot, and the beam.
impl Ppu {
    /// At dot 1 of line 241 vertical blank begins, and the interrupt is
    /// requested if the control register asks for it.
    #[verifier::opaque]
    pub open spec fn spec_vblank(self) -> Ppu {
        if self.scanline == 241 && self.cycle == 1 {
            Ppu {
                status: StatusRegister { vertical_blank: true, ..self.status },
                nmi: self.nmi || self.ctrl.generate_nmi,
                ..self
            }
        } else {
            self
        }
    }

    /// Whether the background shows on the current dot: it is switched on,
    /// and the eight dots at the left edge show it only if the mask
    /// register says so.
    pub open spec fn spec_background_visible(self) -> bool {
        self.mask.show_background && (self.mask.show_background_left || self.cycle >= 9)
    }

    /// The same for the sprites.
    pub open spec fn spec_sprites_visible(self) -> bool {
        self.mask.show_sprites && (self.mask.show_sprites_left || self.cycle >= 9)
    }

    /// What the background offers: the bits that fine x picks from the
    /// four shift registers.
    pub open spec fn spec_background_pixel(self) -> Pixel {
        if self.spec_background_visible() {
            let bit_mux: u16 = 0x8000u16 >> self.fine_x;
            Pixel {
                pixel: (2 * bit((self.bg_state.shifter_pattern_hi & bit_mux) > 0) + bit(
                    (self.bg_state.shifter_pattern_lo & bit_mux) > 0,
                )) as u8,
                palette: (2 * bit((self.bg_state.shifter_attrib_hi & bit_mux) > 0) + bit(
                    (self.bg_state.shifter_attrib_lo & bit_mux) > 0,
                )) as u8,
            }
        } else {
            Pixel { pixel: 0, palette: 0 }
        }
    }

    /// What the sprites offer.
    pub open spec fn spec_foreground_pixel(self) -> SpritePixel {
        if self.spec_sprites_visible() {
            self.sprite_state.spec_pixel()
        } else {
            SpritePixel::transparent()
        }
    }

    /// Whether the current dot is one on which the first sprite can be
    /// found to hit the background: both layers are on, and the beam is in
    /// the picture, beyond the left edge if either layer is hidden there.
    pub open spec fn spec_hit_window(self) -> bool {
        &&& self.mask.show_background
        &&& self.mask.show_sprites
        &&& self.cycle < 258
        &&& if self.mask.show_background_left || self.mask.show_sprites_left {
            self.cycle >= 1
        } else {
            self.cycle >= 9
        }
    }

    /// The two layers are put together. Where both show a pixel and the
    /// sprite's is from the first sprite chosen, the hit flag is set.
    #[verifier::opaque]
    pub open spec fn spec_compose(self) -> Ppu {
        let bg = self.spec_background_pixel();
        let fg = self.spec_foreground_pixel();
        let zero_rendered = if self.spec_sprites_visible() {
            fg.zero
        } else {
            self.sprite_zero_being_rendered
        };
        let hit = bg.pixel > 0 && fg.pixel > 0 && self.sprite_zero_hit_possible && zero_rendered
            && self.spec_hit_window();
        Ppu {
            sprite_zero_being_rendered: zero_rendered,
            status: StatusRegister {
                sprite_zero_hit: self.status.sprite_zero_hit || hit,
                ..self.status
            },
            ..self
        }
    }

    /// Whether the beam is on a dot of the picture.
    pub open spec fn spec_in_picture(self) -> bool {
        0 < self.cycle <= 256 && 0 <= self.scanline < 240
    }

    /// The colour of the current dot goes to the screen, if the dot is in
    /// the picture.
    #[verifier::opaque]
    pub open spec fn spec_plot(self, shown: Pixel) -> Ppu {
        if self.spec_in_picture() {
            Ppu {
                screen: self.screen.spec_set_pixel(
                    self.cycle - 1,
                    self.scanline as int,
                    self.spec_color(shown.palette, shown.pixel),
                ),
                ..self
            }
        } else {
            self
        }
    }

    /// The pixel of the current dot is made and shown.
    #[verifier::opaque]
    pub open spec fn spec_render(self) -> Ppu {
        self.spec_compose().spec_plot(
            spec_composite(self.spec_background_pixel(), self.spec_foreground_pixel()),
        )
    }

    /// The beam moves on by a dot: after dot 340 to the next line, after
    /// line 260 to the line before the picture. There the frame is
    /// complete, and the next one is odd if this one was even.
    #[verifier::opaque]
    pub open spec fn spec_advance(self) -> Ppu {
        if self.cycle < 340 {
            Ppu { cycle: (self.cycle + 1) as i16, ..self }
        } else if self.scanline < 260 {
            Ppu { cycle: 0, scanline: (self.scanline + 1) as i16, ..self }
        } else {
            Ppu {
                cycle: 0,
                scanline: -1i16,
                screen: Screen { complete: true, ..self.screen },
                odd_frame: !self.odd_frame,
                ..self
            }
        }
    }

    /// The pipelines' work on a dot of the lines that are drawn, which are
    /// those up to line 239.
    #[verifier::opaque]
    pub open spec fn spec_draw(self, cart: CartridgeView) -> Ppu {
        if self.scanline < 240 {
            self.spec_skip_dot().spec_begin_frame().spec_fetch_background(
                cart,
            ).spec_end_of_line().spec_end_of_fetches(cart).spec_evaluate_sprites().spec_fetch_sprites(
                cart,
            )
        } else {
            self
        }
    }

    /// One dot.
    #[verifier::opaque]
    pub open spec fn spec_clock(self, cart: CartridgeView) -> Ppu {
        self.spec_draw(cart).spec_vblank().spec_render().spec_advance()
    }

    pub fn vblank(&mut self)
        requires
            old(self).wf(),
        ensures
            *final(self) == old(self).spec_vblank(),
            final(self).wf(),
            final(self).cycle == old(self).cycle,
            final(self).scanline == old(self).scanline,
            final(self).odd_frame == old(self).odd_frame,
            final(self).screen == old(self).screen,
            final(self).mask == old(self).mask,
            final(self).ctrl == old(self).ctrl,
            final(self).nmi == (old(self).nmi || (old(self).scanline == 241 && old(self).cycle == 1
                && old(self).ctrl.generate_nmi)),
    {
        proof {
            reveal(Ppu::spec_vblank);
        }
        if self.scanline == 241 && self.cycle == 1 {
            self.status = StatusRegister { vertical_blank: true, ..self.status };
            if self.ctrl.generate_nmi {
                self.nmi = true;
            }
        }
    }

    pub fn background_pixel(&self) -> (pixel: Pixel)
        requires
            self.wf(),
        ensures
            pixel == self.spec_background_pixel(),
            pixel.pixel < 4,
            pixel.palette < 4,
    {
        if self.mask.show_background && (self.mask.show_background_left || self.cycle >= 9) {
            let bit_mux: u16 = 0x8000u16 >> self.fine_x;
            let p0: u8 = ((self.bg_state.shifter_pattern_lo & bit_mux) > 0) as u8;
            let p1: u8 = ((self.bg_state.shifter_pattern_hi & bit_mux) > 0) as u8;
            let pal0: u8 = ((self.bg_state.shifter_attrib_lo & bit_mux) > 0) as u8;
            let pal1: u8 = ((self.bg_state.shifter_attrib_hi & bit_mux) > 0) as u8;
            Pixel { pixel: 2 * p1 + p0, palette: 2 * pal1 + pal0 }
        } else {
            Pixel { pixel: 0, palette: 0 }
        }
    }

    pub fn foreground_pixel(&self) -> (pixel: SpritePixel)
        requires
            self.wf(),
        ensures
            pixel == self.spec_foreground_pixel(),
            pixel.pixel < 4,
            pixel.palette < 8,
    {
        if self.mask.show_sprites && (self.mask.show_sprites_left || self.cycle >= 9) {
            self.sprite_state.pixel()
        } else {
            SpritePixel { pixel: 0, palette: 0, priority: false, zero: false }
        }
    }

    pub fn hit_window(&self) -> (open: bool)
        ensures
            open == self.spec_hit_window(),
    {
        self.mask.show_background && self.mask.show_sprites && self.cycle < 258 && if
            self.mask.show_background_left || self.mask.show_sprites_left {
            self.cycle >= 1
        } else {
            self.cycle >= 9
        }
    }

    /// Puts the two layers together, notes a hit of the first sprite, and
    /// hands out the pixel that shows.
    pub fn compose(&mut self) -> (shown: Pixel)
        requires
            old(self).wf(),
        ensures
            *final(self) == old(self).spec_compose(),
            shown == spec_composite(
                old(self).spec_background_pixel(),
                old(self).spec_foreground_pixel(),
            ),
            shown.palette < 8,
            shown.pixel < 4,
            final(self).drawn_from(*old(self)),
            final(self).palette_table == old(self).palette_table,
    {
        proof {
            reveal(Ppu::spec_compose);
        }
        let bg: Pixel = self.background_pixel();
        let fg: SpritePixel = self.foreground_pixel();
        let sprites_visible: bool = self.mask.show_sprites && (self.mask.show_sprites_left
            || self.cycle >= 9);
        let zero_rendered: bool = if sprites_visible {
            fg.zero
        } else {
            self.sprite_zero_being_rendered
        };
        let hit: bool = bg.pixel > 0 && fg.pixel > 0 && self.sprite_zero_hit_possible
            && zero_rendered && self.hit_window();
        self.sprite_zero_being_rendered = zero_rendered;
        self.status = StatusRegister {
            sprite_zero_hit: self.status.sprite_zero_hit || hit,
            ..self.status
        };
        composite(bg, fg)
    }

    pub fn plot(&mut self, cart: &Cartridge, shown: Pixel)
        requires
            old(self).wf(),
            shown.palette < 8,
            shown.pixel < 4,
        ensures
            *final(self) == old(self).spec_plot(shown),
            final(self).wf(),
            final(self).cycle == old(self).cycle,
            final(self).scanline == old(self).scanline,
            final(self).odd_frame == old(self).odd_frame,
            final(self).screen.complete == old(self).screen.complete,
            final(self).nmi == old(self).nmi,
            final(self).mask == old(self).mask,
            final(self).ctrl == old(self).ctrl,
    {
        proof {
            reveal(Ppu::spec_plot);
        }
        let color: u32 = self.get_color_from_palette(cart, shown.palette, shown.pixel);
        if self.cycle > 0 && self.cycle <= 256 && self.scanline >= 0 && self.scanline < 240 {
            self.screen.set_pixel((self.cycle - 1) as usize, self.scanline as usize, color);
        }
    }

    pub fn render(&mut self, cart: &Cartridge)
        requires
            old(self).wf(),
        ensures
            *final(self) == old(self).spec_render(),
            final(self).wf(),
            final(self).cycle == old(self).cycle,
            final(self).scanline == old(self).scanline,
            final(self).odd_frame == old(self).odd_frame,
            final(self).screen.complete == old(self).screen.complete,
            final(self).nmi == old(self).nmi,
            final(self).mask == old(self).mask,
            final(self).ctrl == old(self).ctrl,
    {
        proof {
            reveal(Ppu::spec_render);
        }
        let shown: Pixel = self.compose();
        self.plot(cart, shown);
    }

    pub fn advance(&mut self)
        requires
            old(self).wf(),
        ensures
            *final(self) == old(self).spec_advance(),
            final(self).wf(),
            final(self).nmi == old(self).nmi,
            final(self).mask == old(self).mask,
            final(self).ctrl == old(self).ctrl,
            final(self).beam() == old(self).beam().next(false),
    {
        proof {
            reveal(Ppu::spec_advance);
        }
        if self.cycle < 340 {
            self.cycle = self.cycle + 1;
        } else if self.scanline < 260 {
            self.cycle = 0;
            self.scanline = self.scanline + 1;
        } else {
            self.cycle = 0;
            self.scanline = -1;
            self.screen.complete = true;
            self.odd_frame = !self.odd_frame;
        }
    }

    pub fn draw(&mut self, cart: &Cartridge)
        requires
            old(self).wf(),
            cart.mirror != Mirror::Unset,
        ensures
            *final(self) == old(self).spec_draw(cart@),
            final(self).wf(),
            final(self).scanline == old(self).scanline,
            final(self).odd_frame == old(self).odd_frame,
            final(self).screen == old(self).screen,
            final(self).nmi == old(self).nmi,
            final(self).mask == old(self).mask,
            final(self).ctrl == old(self).ctrl,
            final(self).cycle == if old(self).spec_skips() {
                1
            } else {
                old(self).cycle
            },
    {
        proof {
            reveal(Ppu::spec_draw);
        }
        if self.scanline < 240 {
            self.skip_dot();
            self.begin_frame();
            self.fetch_background(cart);
            self.end_of_line();
            self.end_of_fetches(cart);
            self.evaluate_sprites();
            self.fetch_sprites(cart);
        }
    }

    /// Moves the picture unit on by one dot. `cart` is the cartridge whose
    /// character storage and mirroring the video bus sees.
    pub fn clock(&mut self, cart: &Cartridge)
        requires
            old(self).wf(),
            cart.mirror != Mirror::Unset,
        ensures
            *final(self) == old(self).spec_clock(cart@),
            final(self).wf(),
            final(self).mask == old(self).mask,
            final(self).ctrl == old(self).ctrl,
            final(self).beam() == old(self).beam().next(old(self).mask.spec_rendering()),
            final(self).nmi == (old(self).nmi || (old(self).scanline == 241 && old(self).cycle == 1
                && old(self).ctrl.generate_nmi)),
    {
        proof {
            reveal(Ppu::spec_clock);
        }
        self.draw(cart);
        self.vblank();
        self.render(cart);
        self.advance();
    }
}

} // verus!
