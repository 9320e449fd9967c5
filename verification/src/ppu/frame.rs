//! What a dot keeps and what a frame's worth of dots does: the picture
//! unit stays well formed, its beam moves as `Beam::next` says, and the
//! interrupt is requested on one dot of the frame only.

use vstd::prelude::*;
use crate::cartridge::CartridgeView;
use crate::ppu::clock::{FRAME_DOTS, VBLANK_DOT};
use crate::ppu::render::SpriteRenderState;
use crate::ppu::Ppu;

verus! {

impl SpriteRenderState {
    /// Moving the sprites on by a dot keeps their number.
    pub proof fn lemma_step_keeps_count(self, n: nat)
        requires
            n <= 8,
        ensures
            self.spec_step_first(n).count == self.count,
        decreases n,
    {
        if n > 0 {
            self.lemma_step_keeps_count((n - 1) as nat);
        }
    }

    /// Clearing the patterns keeps the sprites and their number.
    pub proof fn lemma_clear_keeps_sprites(self, n: nat)
        requires
            n <= 8,
        ensures
            self.spec_clear_first(n).count == self.count,
            self.spec_clear_first(n).scanline == self.scanline,
        decreases n,
    {
        if n > 0 {
            self.lemma_clear_keeps_sprites((n - 1) as nat);
        }
    }
}

impl Ppu {
    /// The search for the sprites of a line moves the pipelines only.
    pub proof fn lemma_evaluate_first(self, n: nat)
        requires
            self.wf(),
            n <= 64,
        ensures
            self.spec_evaluate_first(n).drawn_from(self),
            self.spec_evaluate_first(n).oam_memory == self.oam_memory,
        decreases n,
    {
        reveal(Ppu::spec_evaluate_start);
        reveal(Ppu::spec_evaluate_entry);
        if n == 0 {
            let cleared = SpriteRenderState {
                scanline: vstd::array::spec_array_fill_for_copy_type::<
                    crate::ppu::render::ObjectAttributeEntry,
                    8,
                >(crate::ppu::render::ObjectAttributeEntry::zero()),
                count: 0,
                ..self.sprite_state
            };
            cleared.lemma_clear_keeps_sprites(8);
        } else {
            self.lemma_evaluate_first((n - 1) as nat);
        }
    }

    /// The number of entries among the first `n` of object memory that
    /// cover the current line.
    pub open spec fn spec_covering(self, n: nat) -> nat
        decreases n,
    {
        if n == 0 {
            0
        } else {
            self.spec_covering((n - 1) as nat) + if self.spec_on_line(
                self.oam_memory[n - 1].y,
            ) {
                1nat
            } else {
                0nat
            }
        }
    }

    /// What the search has found after the first `n` entries of object
    /// memory: as many sprites as cover the line, but eight at most; the
    /// overflow flag set in addition if more than eight do; the note on
    /// entry 0 true exactly if entry 0 covers the line. Every sprite found
    /// is an entry among those `n` that covers the line.
    pub proof fn lemma_evaluated(self, n: nat)
        requires
            self.wf(),
            n <= 64,
        ensures
            ({
                let found = self.spec_evaluate_first(n);
                let covering = self.spec_covering(n);
                &&& found.sprite_state.count == if covering <= 8 {
                    covering
                } else {
                    8
                }
                &&& found.status.sprite_overflow == (self.status.sprite_overflow || covering > 8)
                &&& found.sprite_zero_hit_possible == (n > 0 && self.spec_on_line(
                    self.oam_memory[0].y,
                ))
                &&& forall|slot: int|
                    0 <= slot < found.sprite_state.count ==> exists|i: int|
                        0 <= i < n && self.spec_on_line(self.oam_memory[i].y)
                            && #[trigger] found.sprite_state.scanline[slot] == self.oam_memory[i]
            }),
        decreases n,
    {
        reveal(Ppu::spec_evaluate_start);
        reveal(Ppu::spec_evaluate_entry);
        if n == 0 {
            let cleared = SpriteRenderState {
                scanline: vstd::array::spec_array_fill_for_copy_type::<
                    crate::ppu::render::ObjectAttributeEntry,
                    8,
                >(crate::ppu::render::ObjectAttributeEntry::zero()),
                count: 0,
                ..self.sprite_state
            };
            cleared.lemma_clear_keeps_sprites(8);
        } else {
            let m = (n - 1) as nat;
            self.lemma_evaluated(m);
            self.lemma_evaluate_first(m);
            let before = self.spec_evaluate_first(m);
            let found = self.spec_evaluate_first(n);
            let entry = self.oam_memory[m as int];
            assert(found == before.spec_evaluate_entry(m as int));
            assert(before.oam_memory[m as int] == entry);
            assert(before.spec_on_line(entry.y) == self.spec_on_line(entry.y));
            assert(self.spec_covering(n) == self.spec_covering(m) + if self.spec_on_line(entry.y) {
                1nat
            } else {
                0nat
            });
            assert(found.sprite_state.count == if self.spec_covering(n) <= 8 {
                self.spec_covering(n)
            } else {
                8
            });
            assert(found.status.sprite_overflow == (self.status.sprite_overflow
                || self.spec_covering(n) > 8));
            assert(found.sprite_zero_hit_possible == self.spec_on_line(self.oam_memory[0].y));
            assert forall|slot: int| 0 <= slot < found.sprite_state.count implies exists|i: int|
                0 <= i < n && self.spec_on_line(self.oam_memory[i].y)
                    && #[trigger] found.sprite_state.scanline[slot] == self.oam_memory[i] by {
                if slot < before.sprite_state.count {
                    let i = choose|i: int|
                        0 <= i < m && self.spec_on_line(self.oam_memory[i].y)
                            && before.sprite_state.scanline[slot] == self.oam_memory[i];
                    assert(found.sprite_state.scanline[slot] == self.oam_memory[i]);
                } else {
                    assert(found.sprite_state.scanline[slot] == self.oam_memory[m as int]);
                }
            }
        }
    }

    /// The fetch of the sprites' patterns moves the pipelines only.
    pub proof fn lemma_fetch_first(self, cart: CartridgeView, n: nat)
        requires
            self.wf(),
            n <= 8,
        ensures
            self.spec_fetch_first(cart, n).drawn_from(self),
            self.spec_fetch_first(cart, n).sprite_state.count == self.sprite_state.count,
        decreases n,
    {
        reveal(Ppu::spec_fetch_sprite);
        if n > 0 {
            self.lemma_fetch_first(cart, (n - 1) as nat);
        }
    }

    /// The fetch step of the background moves the pipelines only.
    pub proof fn lemma_fetch_background(self, cart: CartridgeView)
        requires
            self.wf(),
        ensures
            self.spec_fetch_background(cart).drawn_from(self),
    {
        reveal(Ppu::spec_fetch_background);
        reveal(Ppu::spec_update_shifters);
        reveal(Ppu::spec_fetch_step);
        reveal(Ppu::spec_load_shifters);
        reveal(Ppu::spec_fetch_tile_id);
        reveal(Ppu::spec_fetch_attribute);
        reveal(Ppu::spec_fetch_pattern);
        reveal(Ppu::spec_increment_scroll_x);
        self.sprite_state.lemma_step_keeps_count(self.sprite_state.count as nat);
    }

    /// What happens to the scroll at the end of a line and of the fetches
    /// moves the pipelines only.
    pub proof fn lemma_end_of_line(self, cart: CartridgeView)
        requires
            self.wf(),
        ensures
            self.spec_end_of_line().drawn_from(self),
            self.spec_end_of_fetches(cart).drawn_from(self),
    {
        reveal(Ppu::spec_end_of_line);
        reveal(Ppu::spec_end_of_fetches);
        reveal(Ppu::spec_increment_scroll_y);
        reveal(Ppu::spec_transfer_address_x);
        reveal(Ppu::spec_transfer_address_y);
        reveal(Ppu::spec_load_shifters);
        reveal(Ppu::spec_fetch_tile_id);
    }

    /// Leaving out a dot and clearing the flags at the start of a frame
    /// keep the unit well formed; only the first moves the beam, to the dot
    /// that `Beam::dot` names.
    pub proof fn lemma_begin(self)
        requires
            self.wf(),
        ensures
            ({
                let begun = self.spec_skip_dot().spec_begin_frame();
                &&& begun.drawn_from(self.spec_skip_dot())
                &&& self.spec_skip_dot().wf()
                &&& begun.cycle == self.beam().dot(self.mask.spec_rendering())
                &&& begun.scanline == self.scanline
                &&& begun.odd_frame == self.odd_frame
                &&& begun.screen == self.screen
                &&& begun.nmi == self.nmi
                &&& begun.mask == self.mask
                &&& begun.ctrl == self.ctrl
            }),
    {
        reveal(Ppu::spec_skip_dot);
        reveal(Ppu::spec_begin_frame);
        self.spec_skip_dot().sprite_state.lemma_clear_keeps_sprites(8);
    }

    /// The search for the sprites of the line and the fetch of their
    /// patterns move the pipelines only.
    pub proof fn lemma_sprites(self, cart: CartridgeView)
        requires
            self.wf(),
        ensures
            self.spec_evaluate_sprites().drawn_from(self),
            self.spec_evaluate_sprites().spec_fetch_sprites(cart).drawn_from(self),
    {
        reveal(Ppu::spec_evaluate_sprites);
        reveal(Ppu::spec_fetch_sprites);
        self.lemma_evaluate_first(64);
        let evaluated = self.spec_evaluate_sprites();
        evaluated.lemma_fetch_first(cart, evaluated.sprite_state.count as nat);
    }

    /// The background's work on a dot moves the pipelines only.
    pub proof fn lemma_background(self, cart: CartridgeView)
        requires
            self.wf(),
        ensures
            self.spec_fetch_background(cart).spec_end_of_line().spec_end_of_fetches(
                cart,
            ).drawn_from(self),
    {
        self.lemma_fetch_background(cart);
        let fetched = self.spec_fetch_background(cart);
        fetched.lemma_end_of_line(cart);
        fetched.spec_end_of_line().lemma_end_of_line(cart);
    }

    /// The pipelines' work on a dot keeps the unit well formed and the
    /// beam where it is, but for the dot that odd frames leave out.
    pub proof fn lemma_draw(self, cart: CartridgeView)
        requires
            self.wf(),
        ensures
            ({
                let drawn = self.spec_draw(cart);
                &&& drawn.wf()
                &&& drawn.cycle == self.beam().dot(self.mask.spec_rendering())
                &&& drawn.scanline == self.scanline
                &&& drawn.odd_frame == self.odd_frame
                &&& drawn.screen == self.screen
                &&& drawn.nmi == self.nmi
                &&& drawn.mask == self.mask
                &&& drawn.ctrl == self.ctrl
            }),
    {
        reveal(Ppu::spec_draw);
        if self.scanline < 240 {
            self.lemma_begin();
            let begun = self.spec_skip_dot().spec_begin_frame();
            begun.lemma_background(cart);
            let background = begun.spec_fetch_background(cart).spec_end_of_line().spec_end_of_fetches(
                cart,
            );
            background.lemma_sprites(cart);
        }
    }

    /// The start of vertical blank keeps the unit well formed and the
    /// beam where it is, and requests the interrupt on dot 1 of line 241 if
    /// the control register asks for it.
    pub proof fn lemma_vblank(self)
        requires
            self.wf(),
        ensures
            ({
                let next = self.spec_vblank();
                &&& next.wf()
                &&& next.beam() == self.beam()
                &&& next.mask == self.mask
                &&& next.ctrl == self.ctrl
                &&& next.nmi == (self.nmi || (self.beam().at_vblank() && self.ctrl.generate_nmi))
            }),
    {
        reveal(Ppu::spec_vblank);
    }

    /// Making and showing the pixel keeps the unit well formed and the
    /// beam where it is.
    pub proof fn lemma_render(self)
        requires
            self.wf(),
        ensures
            ({
                let next = self.spec_render();
                &&& next.wf()
                &&& next.beam() == self.beam()
                &&& next.mask == self.mask
                &&& next.ctrl == self.ctrl
                &&& next.nmi == self.nmi
            }),
    {
        reveal(Ppu::spec_render);
        reveal(Ppu::spec_compose);
        reveal(Ppu::spec_plot);
    }

    /// Moving on keeps the unit well formed and takes the beam from the
    /// dot it stands on to the next.
    pub proof fn lemma_advance(self)
        requires
            self.wf(),
        ensures
            ({
                let next = self.spec_advance();
                &&& next.wf()
                &&& next.beam() == self.beam().next(false)
                &&& next.mask == self.mask
                &&& next.ctrl == self.ctrl
                &&& next.nmi == self.nmi
            }),
    {
        reveal(Ppu::spec_advance);
    }

    /// A dot keeps the unit well formed, the mask and the control register
    /// as they are, and moves the beam as `Beam::next` says. It requests
    /// the interrupt exactly on dot 1 of line 241, and only if the control
    /// register asks for it then.
    pub proof fn lemma_clock(self, cart: CartridgeView)
        requires
            self.wf(),
        ensures
            ({
                let next = self.spec_clock(cart);
                &&& next.wf()
                &&& next.mask == self.mask
                &&& next.ctrl == self.ctrl
                &&& next.beam() == self.beam().next(self.mask.spec_rendering())
                &&& next.nmi == (self.nmi || (self.beam().at_vblank() && self.ctrl.generate_nmi))
            }),
    {
        reveal(Ppu::spec_clock);
        self.lemma_draw(cart);
        let drawn = self.spec_draw(cart);
        drawn.lemma_vblank();
        let blanked = drawn.spec_vblank();
        blanked.lemma_render();
        let rendered = blanked.spec_render();
        rendered.lemma_advance();
    }

    /// The unit after `n` dots with the same cartridge.
    pub open spec fn spec_clocks(self, cart: CartridgeView, n: nat) -> Ppu
        decreases n,
    {
        if n == 0 {
            self
        } else {
            self.spec_clocks(cart, (n - 1) as nat).spec_clock(cart)
        }
    }

    /// Over any number of dots the unit stays well formed and its beam
    /// moves as the beam alone would.
    pub proof fn lemma_clocks(self, cart: CartridgeView, n: nat)
        requires
            self.wf(),
        ensures
            ({
                let then = self.spec_clocks(cart, n);
                &&& then.wf()
                &&& then.mask == self.mask
                &&& then.ctrl == self.ctrl
                &&& then.beam() == self.beam().after(self.mask.spec_rendering(), n)
            }),
        decreases n,
    {
        if n > 0 {
            self.lemma_clocks(cart, (n - 1) as nat);
            self.spec_clocks(cart, (n - 1) as nat).lemma_clock(cart);
        }
    }

    /// The number of dots of the frame that starts at this unit's beam:
    /// 341 x 262, or one less on an odd frame while anything is drawn.
    pub open spec fn frame_dots(self) -> nat {
        if self.beam().short_frame(self.mask.spec_rendering()) {
            (FRAME_DOTS - 1) as nat
        } else {
            FRAME_DOTS as nat
        }
    }

    /// From the start of a frame, the dots of one frame bring the beam
    /// back to dot 0 of line -1. The frame is marked complete by the last
    /// of them and by no earlier one.
    pub proof fn lemma_frame(self, cart: CartridgeView)
        requires
            self.wf(),
            self.beam().at_frame_start(),
        ensures
            ({
                let done = self.spec_clocks(cart, self.frame_dots());
                &&& done.cycle == 0
                &&& done.scanline == -1
                &&& done.screen.complete
                &&& done.odd_frame == !self.odd_frame
                &&& forall|n: nat|
                    n < self.frame_dots() ==> (#[trigger] self.spec_clocks(
                        cart,
                        n,
                    )).screen.complete == self.screen.complete
            }),
    {
        let rendering = self.mask.spec_rendering();
        self.beam().lemma_frame(rendering);
        self.lemma_clocks(cart, self.frame_dots());
        assert forall|n: nat| n < self.frame_dots() implies (#[trigger] self.spec_clocks(
            cart,
            n,
        )).screen.complete == self.screen.complete by {
            self.lemma_clocks(cart, n);
            assert(self.beam().after(rendering, n).complete == self.beam().complete);
        }
    }

    /// Within a frame the interrupt is requested by one dot at most: the
    /// dot on which the beam stands on dot 1 of line 241, and then only if
    /// the control register asks for it. No other dot changes the request.
    pub proof fn lemma_nmi_once(self, cart: CartridgeView, n: nat)
        requires
            self.wf(),
            self.beam().at_frame_start(),
            n < self.frame_dots(),
        ensures
            ({
                let before = self.spec_clocks(cart, n);
                let after = self.spec_clocks(cart, n + 1);
                let vblank_dot = if self.beam().short_frame(self.mask.spec_rendering()) {
                    VBLANK_DOT - 1
                } else {
                    VBLANK_DOT as int
                };
                &&& before.beam().at_vblank() <==> n == vblank_dot
                &&& after.nmi == (before.nmi || (n == vblank_dot && self.ctrl.generate_nmi))
            }),
    {
        self.lemma_clocks(cart, n);
        self.spec_clocks(cart, n).lemma_clock(cart);
        self.beam().lemma_vblank_once(self.mask.spec_rendering(), n);
        assert(self.spec_clocks(cart, n + 1) == self.spec_clocks(cart, n).spec_clock(cart));
    }
}

} // verus!
