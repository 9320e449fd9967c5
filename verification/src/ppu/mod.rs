//! The picture unit: its memories and registers, its two buses, and the
//! dot-by-dot drawing of a frame.

pub mod clock;
pub mod frame;
pub mod registers;
pub mod render;

use vstd::prelude::*;
use vstd::array::{spec_array_fill_for_copy_type, spec_array_update};
use crate::bus::AddressRange;
use crate::cartridge::{Cartridge, CartridgeView, Mirror};
use crate::ppu::registers::{CtrlReg, LoopyAddress, MaskReg, StatusRegister};
use crate::ppu::render::{BgRenderState, ObjectAttributeEntry, Screen, SpriteRenderState, PALETTE};

verus! {

pub struct Ppu {
    pub screen: Screen,
    /// The dot within the line, 0 to 340.
    pub cycle: i16,
    /// The line, -1 (the line before the picture) to 260.
    pub scanline: i16,
    pub odd_frame: bool,
    pub ctrl: CtrlReg,
    pub mask: MaskReg,
    pub status: StatusRegister,
    /// Raised at the start of vertical blank for the CPU to take.
    pub nmi: bool,
    pub oam_address: u8,
    pub oam_memory: [ObjectAttributeEntry; 64],
    pub name_table: [[u8; 1024]; 2],
    pub palette_table: [u8; 32],
    pub bg_state: BgRenderState,
    pub sprite_state: SpriteRenderState,
    pub sprite_zero_hit_possible: bool,
    pub sprite_zero_being_rendered: bool,
    /// Which of its two writes a two-write register expects next.
    pub loopy_latch: bool,
    /// The byte a data read hands out one read late.
    pub ppu_data_buf: u8,
    pub vram_address: LoopyAddress,
    pub tram_address: LoopyAddress,
    pub fine_x: u8,
}

/// Which of the two physical nametables holds offset `offset` (below
/// 0x1000) of nametable space. Vertical mirroring alternates them every
/// 1 KiB; any other setting gives each a 2 KiB half.
pub open spec fn spec_nametable_of(mirror: Mirror, offset: u16) -> int {
    if mirror == Mirror::Vertical {
        ((offset / 0x400) % 2) as int
    } else {
        (offset / 0x800) as int
    }
}

/// The place in the palette table of palette address `address`: its low
/// five bits, with 0x10, 0x14, 0x18 and 0x1c falling onto 0x00, 0x04, 0x08
/// and 0x0c.
pub open spec fn spec_palette_index(address: u16) -> int {
    let low = address % 32;
    if low >= 16 && low % 4 == 0 {
        low - 16
    } else {
        low as int
    }
}

pub fn nametable_of(mirror: Mirror, offset: u16) -> (table: usize)
    requires
        offset < 0x1000,
    ensures
        table == spec_nametable_of(mirror, offset),
        table < 2,
{
    if mirror == Mirror::Vertical {
        if offset <= 0x03ff || (0x0800 <= offset && offset <= 0x0bff) {
            0
        } else {
            1
        }
    } else if offset <= 0x07ff {
        0
    } else {
        1
    }
}

pub fn palette_index(address: u16) -> (index: usize)
    ensures
        index == spec_palette_index(address),
        index < 32,
{
    let low: u16 = address % 32;
    match low {
        0x0010 => 0x0000,
        0x0014 => 0x0004,
        0x0018 => 0x0008,
        0x001c => 0x000c,
        _ => low as usize,
    }
}

impl Ppu {
    /// The counters and fields stay in their ranges.
    pub open spec fn wf(self) -> bool {
        &&& 0 <= self.cycle <= 340
        &&& -1 <= self.scanline <= 260
        &&& self.sprite_state.wf()
        &&& self.vram_address.wf()
        &&& self.tram_address.wf()
        &&& self.fine_x < 8
        &&& self.status.unused < 32
    }

    /// Whether the counters and fields are in their ranges.
    pub fn well_formed(&self) -> (ok: bool)
        ensures
            ok == self.wf(),
    {
        0 <= self.cycle && self.cycle <= 340 && -1 <= self.scanline && self.scanline <= 260
            && self.sprite_state.count <= 8 && self.vram_address.well_formed()
            && self.tram_address.well_formed() && self.fine_x < 8 && self.status.unused < 32
    }

    /// The unit as it is switched on: everything zero, the screen black and
    /// counted as complete.
    pub open spec fn power_on() -> Ppu {
        Ppu {
            screen: Screen { buffer: Box::new(spec_array_fill_for_copy_type::<u32, 61440>(0)), complete: true },
            cycle: 0,
            scanline: 0,
            odd_frame: false,
            ctrl: CtrlReg::of(0),
            mask: MaskReg::of(0),
            status: StatusRegister {
                unused: 0,
                sprite_overflow: false,
                sprite_zero_hit: false,
                vertical_blank: false,
            },
            nmi: false,
            oam_address: 0,
            oam_memory: spec_array_fill_for_copy_type::<ObjectAttributeEntry, 64>(
                ObjectAttributeEntry::zero(),
            ),
            name_table: spec_array_fill_for_copy_type::<[u8; 1024], 2>(
                spec_array_fill_for_copy_type::<u8, 1024>(0),
            ),
            palette_table: spec_array_fill_for_copy_type::<u8, 32>(0),
            bg_state: BgRenderState {
                tile_id: 0,
                tile_attrib: 0,
                tile_lsb: 0,
                tile_msb: 0,
                shifter_pattern_lo: 0,
                shifter_pattern_hi: 0,
                shifter_attrib_lo: 0,
                shifter_attrib_hi: 0,
            },
            sprite_state: SpriteRenderState {
                scanline: spec_array_fill_for_copy_type::<ObjectAttributeEntry, 8>(
                    ObjectAttributeEntry::zero(),
                ),
                count: 0,
                shifter_pattern_lo: spec_array_fill_for_copy_type::<u8, 8>(0),
                shifter_pattern_hi: spec_array_fill_for_copy_type::<u8, 8>(0),
            },
            sprite_zero_hit_possible: false,
            sprite_zero_being_rendered: false,
            loopy_latch: false,
            ppu_data_buf: 0,
            vram_address: LoopyAddress::of(0),
            tram_address: LoopyAddress::of(0),
            fine_x: 0,
        }
    }

    pub fn new() -> (ppu: Ppu)
        ensures
            ppu == Self::power_on(),
            ppu.wf(),
    {
        Ppu {
            screen: Screen { buffer: Box::new([0u32;61440]), complete: true },
            cycle: 0,
            scanline: 0,
            odd_frame: false,
            ctrl: CtrlReg::default(),
            mask: MaskReg::default(),
            status: StatusRegister::default(),
            nmi: false,
            oam_address: 0,
            oam_memory: [ObjectAttributeEntry { y: 0, id: 0, attr: 0, x: 0 };64],
            name_table: [[0u8;1024];2],
            palette_table: [0u8;32],
            bg_state: BgRenderState::default(),
            sprite_state: SpriteRenderState {
                scanline: [ObjectAttributeEntry { y: 0, id: 0, attr: 0, x: 0 };8],
                count: 0,
                shifter_pattern_lo: [0u8;8],
                shifter_pattern_hi: [0u8;8],
            },
            sprite_zero_hit_possible: false,
            sprite_zero_being_rendered: false,
            loopy_latch: false,
            ppu_data_buf: 0,
            vram_address: LoopyAddress::default(),
            tram_address: LoopyAddress::default(),
            fine_x: 0,
        }
    }

    /// Back to the state at switching on.
    pub fn reset(&mut self)
        ensures
            *final(self) == Self::power_on(),
            final(self).wf(),
    {
        *self = Ppu::new();
    }
}

/// The video bus and the object memory.
impl Ppu {
    /// What a read on the video bus returns: character storage below
    /// 0x2000, a nametable up to 0x3eff, the palette up to 0x3fff, and 0
    /// above.
    pub open spec fn spec_ppu_read(self, cart: CartridgeView, address: u16) -> u8 {
        if address < 0x2000 {
            cart.spec_ppu_read(address)
        } else if address <= 0x3eff {
            self.name_table[spec_nametable_of(cart.mirror, (address % 0x1000) as u16)][(address
                % 0x400) as int]
        } else if address <= 0x3fff {
            self.palette_table[spec_palette_index(address)]
        } else {
            0
        }
    }

    /// The unit and the cartridge after a write on the video bus. Only the
    /// low 14 bits of the address count.
    pub open spec fn spec_ppu_write(self, cart: CartridgeView, address: u16, data: u8) -> (
        Ppu,
        CartridgeView,
    ) {
        let address = (address % 0x4000) as u16;
        if address < 0x2000 {
            (self, cart.spec_ppu_write(address, data))
        } else if address <= 0x3eff {
            let table = spec_nametable_of(cart.mirror, (address % 0x1000) as u16);
            (
                Ppu {
                    name_table: spec_array_update(
                        self.name_table,
                        table,
                        spec_array_update(self.name_table[table], (address % 0x400) as int, data),
                    ),
                    ..self
                },
                cart,
            )
        } else {
            (
                Ppu {
                    palette_table: spec_array_update(
                        self.palette_table,
                        spec_palette_index(address),
                        data,
                    ),
                    ..self
                },
                cart,
            )
        }
    }

    /// Byte `address` of object memory: four bytes to an entry.
    pub open spec fn spec_read_oam(self, address: u8) -> u8 {
        self.oam_memory[address as int / 4].spec_byte(address as int % 4)
    }

    /// The unit with byte `address` of object memory replaced.
    pub open spec fn spec_write_oam(self, address: u8, data: u8) -> Ppu {
        Ppu {
            oam_memory: spec_array_update(
                self.oam_memory,
                address as int / 4,
                self.oam_memory[address as int / 4].spec_with_byte(address as int % 4, data),
            ),
            ..self
        }
    }

    /// Whether a read at `address` on the video bus can be served: a
    /// nametable read needs a cartridge that has set the mirroring.
    pub open spec fn spec_can_ppu_read(cart: CartridgeView, address: u16) -> bool {
        0x2000 <= address <= 0x3eff ==> cart.mirror != Mirror::Unset
    }

    pub fn ppu_read(&self, cart: &Cartridge, address: u16) -> (data: u8)
        requires
            Self::spec_can_ppu_read(cart@, address),
        ensures
            data == self.spec_ppu_read(cart@, address),
    {
        if address <= 0x1fff {
            cart.ppu_read(address)
        } else if address <= 0x3eff {
            let table: usize = nametable_of(cart.mirror, address % 0x1000);
            self.name_table[table][(address % 0x0400) as usize]
        } else if address <= 0x3fff {
            self.palette_table[palette_index(address)]
        } else {
            0
        }
    }

    pub fn ppu_write(&mut self, cart: &mut Cartridge, address: u16, data: u8)
        ensures
            (*final(self), final(cart)@) == old(self).spec_ppu_write(old(cart)@, address, data),
    {
        let address: u16 = address % 0x4000;
        if address < 0x2000 {
            cart.ppu_write(address, data);
        } else if address <= 0x3eff {
            let table: usize = nametable_of(cart.mirror, address % 0x1000);
            self.name_table[table][(address % 0x0400) as usize] = data;
        } else {
            self.palette_table[palette_index(address)] = data;
        }
    }

    pub fn read_oam(&self, address: u8) -> (data: u8)
        ensures
            data == self.spec_read_oam(address),
    {
        let index: usize = (address / 4) as usize;
        match address % 4 {
            0 => self.oam_memory[index].y,
            1 => self.oam_memory[index].id,
            2 => self.oam_memory[index].attr,
            _ => self.oam_memory[index].x,
        }
    }

    pub fn write_oam(&mut self, address: u8, data: u8)
        ensures
            *final(self) == old(self).spec_write_oam(address, data),
    {
        let index: usize = (address / 4) as usize;
        match address % 4 {
            0 => {
                self.oam_memory[index].y = data;
            },
            1 => {
                self.oam_memory[index].id = data;
            },
            2 => {
                self.oam_memory[index].attr = data;
            },
            _ => {
                self.oam_memory[index].x = data;
            },
        }
    }

    /// The colour of pixel value `pixel` (0 to 3) in palette `palette`
    /// (0 to 7).
    pub open spec fn spec_color(self, palette: u8, pixel: u8) -> u32 {
        PALETTE[(self.palette_table[spec_palette_index((0x3f00 + palette * 4 + pixel) as u16)]
            % 64) as int]
    }

    pub fn get_color_from_palette(&self, cart: &Cartridge, palette: u8, pixel: u8) -> (color: u32)
        requires
            palette < 8,
            pixel < 4,
        ensures
            color == self.spec_color(palette, pixel),
    {
        let entry: u8 = self.ppu_read(cart, 0x3f00 + (palette * 4 + pixel) as u16);
        PALETTE[(entry % 64) as usize]
    }
}

/// The eight registers the CPU sees, repeated every eight addresses.
impl Ppu {
    pub open spec fn spec_address_range(&self) -> AddressRange {
        AddressRange { start: 0x2000, end: 0x4000 }
    }

    pub fn address_range(&self) -> (range: AddressRange)
        ensures
            range == self.spec_address_range(),
    {
        AddressRange { start: 0x2000, end: 0x4000 }
    }

    /// The unit after the video address has stepped on by 1 or, if the
    /// control register says so, by 32.
    pub open spec fn spec_increment_vram_address(self) -> Ppu {
        let step: int = if self.ctrl.increment {
            32
        } else {
            1
        };
        Ppu {
            vram_address: LoopyAddress::of(
                ((self.vram_address.spec_to_data() + step) % 0x10000) as u16,
            ),
            ..self
        }
    }

    pub fn increment_vram_address(&mut self)
        ensures
            *final(self) == old(self).spec_increment_vram_address(),
            final(self).vram_address.wf(),
    {
        let mut reg: u16 = self.vram_address.to_data();
        reg = reg.wrapping_add(if self.ctrl.increment { 32 } else { 1 });
        self.vram_address.set_data(reg);
    }

    /// A write to the control register also sets the nametable bits of the
    /// latched address.
    pub open spec fn spec_write_control(self, data: u8) -> Ppu {
        Ppu {
            ctrl: CtrlReg::of(data),
            tram_address: LoopyAddress {
                nametable_x: CtrlReg::of(data).nametable_x,
                nametable_y: CtrlReg::of(data).nametable_y,
                ..self.tram_address
            },
            ..self
        }
    }

    /// The scroll register takes x first, then y: three fine bits and five
    /// coarse bits each.
    pub open spec fn spec_write_scroll(self, data: u8) -> Ppu {
        if !self.loopy_latch {
            Ppu {
                fine_x: data % 8,
                tram_address: LoopyAddress { coarse_x: data / 8, ..self.tram_address },
                loopy_latch: true,
                ..self
            }
        } else {
            Ppu {
                tram_address: LoopyAddress {
                    fine_y: data % 8,
                    coarse_y: data / 8,
                    ..self.tram_address
                },
                loopy_latch: false,
                ..self
            }
        }
    }

    /// The address register takes the high byte first, cut to six bits,
    /// then the low byte; the second write makes the latched address the
    /// current one.
    pub open spec fn spec_write_address(self, data: u8) -> Ppu {
        if !self.loopy_latch {
            Ppu {
                tram_address: LoopyAddress::of(
                    ((data % 64) * 256 + self.tram_address.spec_to_data() % 256) as u16,
                ),
                loopy_latch: true,
                ..self
            }
        } else {
            let address = LoopyAddress::of(
                ((self.tram_address.spec_to_data() / 256) * 256 + data) as u16,
            );
            Ppu { tram_address: address, vram_address: address, loopy_latch: false, ..self }
        }
    }

    /// A write to the data register goes to the video bus at the current
    /// address, which then steps on.
    pub open spec fn spec_write_data(self, cart: CartridgeView, data: u8) -> (Ppu, CartridgeView) {
        let (ppu, cart) = self.spec_ppu_write(cart, self.vram_address.spec_to_data(), data);
        (ppu.spec_increment_vram_address(), cart)
    }

    /// The unit and the cartridge after the CPU wrote `data` to the
    /// register at `address`.
    pub open spec fn spec_write(self, cart: CartridgeView, address: u16, data: u8) -> (
        Ppu,
        CartridgeView,
    ) {
        let register = address % 8;
        if register == 0 {
            (self.spec_write_control(data), cart)
        } else if register == 1 {
            (Ppu { mask: MaskReg::of(data), ..self }, cart)
        } else if register == 2 {
            (self, cart)
        } else if register == 3 {
            (Ppu { oam_address: data, ..self }, cart)
        } else if register == 4 {
            (self.spec_write_oam(self.oam_address, data), cart)
        } else if register == 5 {
            (self.spec_write_scroll(data), cart)
        } else if register == 6 {
            (self.spec_write_address(data), cart)
        } else {
            self.spec_write_data(cart, data)
        }
    }

    pub fn write_control(&mut self, data: u8)
        requires
            old(self).wf(),
        ensures
            *final(self) == old(self).spec_write_control(data),
            final(self).wf(),
            final(self).follows(*old(self)),
    {
        self.ctrl.set_byte(data);
        self.tram_address.nametable_x = self.ctrl.nametable_x;
        self.tram_address.nametable_y = self.ctrl.nametable_y;
    }

    pub fn write_scroll(&mut self, data: u8)
        requires
            old(self).wf(),
        ensures
            *final(self) == old(self).spec_write_scroll(data),
            final(self).wf(),
            final(self).follows(*old(self)),
    {
        if !self.loopy_latch {
            self.fine_x = data % 8;
            self.tram_address.coarse_x = data / 8;
            self.loopy_latch = true;
        } else {
            self.tram_address.fine_y = data % 8;
            self.tram_address.coarse_y = data / 8;
            self.loopy_latch = false;
        }
    }

    pub fn write_address(&mut self, data: u8)
        requires
            old(self).wf(),
        ensures
            *final(self) == old(self).spec_write_address(data),
            final(self).wf(),
            final(self).follows(*old(self)),
    {
        if !self.loopy_latch {
            let low: u16 = self.tram_address.to_data() % 256;
            self.tram_address.set_data(((data % 64) as u16) * 256 + low);
            self.loopy_latch = true;
        } else {
            let high: u16 = self.tram_address.to_data() / 256;
            self.tram_address.set_data(high * 256 + data as u16);
            self.vram_address = self.tram_address;
            self.loopy_latch = false;
        }
    }

    pub fn write_data(&mut self, cart: &mut Cartridge, data: u8)
        requires
            old(self).wf(),
        ensures
            (*final(self), final(cart)@) == old(self).spec_write_data(old(cart)@, data),
            final(self).wf(),
            final(self).follows(*old(self)),
            final(cart).mirror == old(cart).mirror,
            final(cart).valid == old(cart).valid,
    {
        self.ppu_write(cart, self.vram_address.to_data(), data);
        self.increment_vram_address();
    }

    pub fn write(&mut self, cart: &mut Cartridge, address: u16, data: u8)
        requires
            old(self).wf(),
        ensures
            (*final(self), final(cart)@) == old(self).spec_write(old(cart)@, address, data),
            final(self).wf(),
            final(self).follows(*old(self)),
            final(cart).mirror == old(cart).mirror,
            final(cart).valid == old(cart).valid,
    {
        let register: u16 = address % 8;
        if register == 0 {
            self.write_control(data);
        } else if register == 1 {
            self.mask.set_byte(data);
        } else if register == 2 {
        } else if register == 3 {
            self.oam_address = data;
        } else if register == 4 {
            self.write_oam(self.oam_address, data);
        } else if register == 5 {
            self.write_scroll(data);
        } else if register == 6 {
            self.write_address(data);
        } else {
            self.write_data(cart, data);
        }
    }

    /// Whether the register at `address` can be read: the status, object
    /// data and video data registers can, the last only where the video bus
    /// can serve the read.
    pub open spec fn spec_can_read(self, cart: CartridgeView, address: u16) -> bool {
        let register = address % 8;
        register == 2 || register == 4 || (register == 7 && Self::spec_can_ppu_read(
            cart,
            self.vram_address.spec_to_data(),
        ))
    }

    pub fn can_read(&self, cart: &Cartridge, address: u16) -> (readable: bool)
        ensures
            readable == self.spec_can_read(cart@, address),
    {
        let register: u16 = address % 8;
        if register == 7 {
            let target: u16 = self.vram_address.to_data();
            !(0x2000 <= target && target <= 0x3eff) || cart.mirror != Mirror::Unset
        } else {
            register == 2 || register == 4
        }
    }

    /// What the CPU reads from the register at `address` and the unit
    /// after the read.
    ///
    /// The status register hands out its three flags over the low five
    /// bits of the data buffer, and clears vertical blank and the write
    /// latch. The video data register hands out the buffer and refills it,
    /// except in palette space, where it hands out the fresh byte.
    pub open spec fn spec_read(self, cart: CartridgeView, address: u16) -> (u8, Ppu) {
        let register = address % 8;
        if register == 2 {
            (
                (self.status.flag_bits() + self.ppu_data_buf % 32) as u8,
                Ppu {
                    status: StatusRegister { vertical_blank: false, ..self.status },
                    loopy_latch: false,
                    ..self
                },
            )
        } else if register == 4 {
            (self.spec_read_oam(self.oam_address), self)
        } else {
            let target = self.vram_address.spec_to_data();
            let fresh = self.spec_ppu_read(cart, target);
            (
                if target >= 0x3f00 {
                    fresh
                } else {
                    self.ppu_data_buf
                },
                Ppu { ppu_data_buf: fresh, ..self }.spec_increment_vram_address(),
            )
        }
    }

    pub fn read(&mut self, cart: &Cartridge, address: u16) -> (data: u8)
        requires
            old(self).wf(),
            old(self).spec_can_read(cart@, address),
        ensures
            (data, *final(self)) == old(self).spec_read(cart@, address),
            final(self).wf(),
            final(self).follows(*old(self)),
    {
        let register: u16 = address % 8;
        if register == 2 {
            let data: u8 = (self.status.to_byte() / 32) * 32 + self.ppu_data_buf % 32;
            self.status.vertical_blank = false;
            self.loopy_latch = false;
            data
        } else if register == 4 {
            self.read_oam(self.oam_address)
        } else {
            let target: u16 = self.vram_address.to_data();
            let mut data: u8 = self.ppu_data_buf;
            self.ppu_data_buf = self.ppu_read(cart, target);
            if target >= 0x3f00 {
                data = self.ppu_data_buf;
            }
            self.increment_vram_address();
            data
        }
    }

    /// What no register access changes: where the beam is, what is on the
    /// screen, and the ranges that `wf` asks for.
    pub open spec fn follows(self, before: Ppu) -> bool {
        &&& self.cycle == before.cycle
        &&& self.scanline == before.scanline
        &&& self.odd_frame == before.odd_frame
        &&& self.screen == before.screen
        &&& self.nmi == before.nmi
        &&& self.sprite_state == before.sprite_state
    }
}

impl Ppu {
    /// A byte written through the object data register is the byte that a
    /// read of that register returns next, whatever the object address is.
    pub proof fn lemma_oam_data_round_trip(self, cart: CartridgeView, address: u16, data: u8)
        requires
            address % 8 == 4,
        ensures
            ({
                let (written, cart_after) = self.spec_write(cart, address, data);
                written.spec_read(cart_after, address).0 == data
            }),
            self.spec_write_oam(self.oam_address, data).spec_read_oam(self.oam_address) == data,
    {
        let index = self.oam_address as int / 4;
        let written = self.spec_write_oam(self.oam_address, data);
        assert(written.oam_memory[index] == self.oam_memory[index].spec_with_byte(
            self.oam_address as int % 4,
            data,
        ));
    }

    /// A write to object memory changes the byte it names and no other.
    pub proof fn lemma_write_oam_changes_one_byte(self, address: u8, data: u8, other: u8)
        ensures
            self.spec_write_oam(address, data).spec_read_oam(other) == if other == address {
                data
            } else {
                self.spec_read_oam(other)
            },
    {
        let written = self.spec_write_oam(address, data);
        assert(written.oam_memory[address as int / 4] == self.oam_memory[address as int
            / 4].spec_with_byte(address as int % 4, data));
        if other as int / 4 != address as int / 4 {
            assert(written.oam_memory[other as int / 4] == self.oam_memory[other as int / 4]);
        }
    }
}

} // verus!
