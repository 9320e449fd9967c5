use nes_emulator::cartridge::Cartridge;
use nes_emulator::ppu::registers::{CtrlReg, LoopyAddress, MaskReg, StatusRegister};
use nes_emulator::ppu::render::{
    flipbyte, BgRenderState, ObjectAttributeEntry, Screen, SpriteRenderState, DISPLAY_HEIGHT,
    DISPLAY_WIDTH, PALETTE,
};
use nes_emulator::ppu::{nametable_of, palette_index, Ppu};
use nes_emulator::cartridge::Mirror;

fn rom_image(flags6: u8) -> Vec<u8> {
    let mut data = vec![0x4e, 0x45, 0x53, 0x1a, 1, 1, flags6, 0, 0];
    data.resize(16, 0);
    for i in 0..0x4000usize {
        data.push((i % 251) as u8);
    }
    for i in 0..0x2000usize {
        data.push((i % 241) as u8 ^ 0x80);
    }
    data
}

fn cartridge_with(flags6: u8) -> Cartridge {
    let mut cart = Cartridge::new();
    cart.insert(&rom_image(flags6)).unwrap();
    cart
}

#[test]
fn control_register_fields() {
    let mut ctrl = CtrlReg::default();
    assert!(!ctrl.generate_nmi && !ctrl.nametable_x);
    ctrl.set_byte(0b1010_0101);
    assert!(ctrl.nametable_x);
    assert!(!ctrl.nametable_y);
    assert!(ctrl.increment);
    assert!(!ctrl.pattern_sprite);
    assert!(!ctrl.pattern_background);
    assert!(ctrl.is_wide_sprite);
    assert!(!ctrl.master_slave);
    assert!(ctrl.generate_nmi);
    ctrl.set_byte(0b0101_1010);
    assert!(!ctrl.nametable_x && ctrl.nametable_y && !ctrl.increment && ctrl.pattern_sprite);
    assert!(ctrl.pattern_background && !ctrl.is_wide_sprite && ctrl.master_slave);
    assert!(!ctrl.generate_nmi);
}

#[test]
fn mask_register_fields() {
    let mut mask = MaskReg::default();
    assert!(!mask.rendering());
    mask.set_byte(0b0000_1000);
    assert!(mask.show_background && !mask.show_sprites && mask.rendering());
    mask.set_byte(0b0001_0000);
    assert!(!mask.show_background && mask.show_sprites && mask.rendering());
    mask.set_byte(0b1110_0111);
    assert!(mask.grayscale && mask.show_background_left && mask.show_sprites_left);
    assert!(mask.emphasize_red && mask.emphasize_green && mask.emphasize_blue);
    assert!(!mask.rendering());
}

#[test]
fn status_register_byte() {
    let mut status = StatusRegister::default();
    assert_eq!(status.to_byte(), 0x00);
    status.vertical_blank = true;
    assert_eq!(status.to_byte(), 0x80);
    status.sprite_zero_hit = true;
    assert_eq!(status.to_byte(), 0xc0);
    status.sprite_overflow = true;
    assert_eq!(status.to_byte(), 0xe0);
    status.unused = 0x15;
    assert_eq!(status.to_byte(), 0xf5);
}

#[test]
fn scroll_word_takes_apart_and_goes_together_for_every_word() {
    for data in 0..=0xffffu16 {
        let mut address = LoopyAddress::default();
        address.set_data(data);
        assert_eq!(address.coarse_x as u16, data & 0x1f);
        assert_eq!(address.coarse_y as u16, (data >> 5) & 0x1f);
        assert_eq!(address.nametable_x, data & 0x0400 != 0);
        assert_eq!(address.nametable_y, data & 0x0800 != 0);
        assert_eq!(address.fine_y as u16, (data >> 12) & 0x07);
        assert_eq!(address.unused, data & 0x8000 != 0);
        assert_eq!(address.to_data(), data);
    }
}

#[test]
fn scroll_word_example() {
    let address = LoopyAddress {
        coarse_x: 3,
        coarse_y: 2,
        nametable_x: true,
        nametable_y: false,
        fine_y: 5,
        unused: false,
    };
    assert_eq!(address.to_data(), 3 + 2 * 32 + 1024 + 5 * 4096);
    let wide = LoopyAddress { coarse_x: 0xff, coarse_y: 0xff, fine_y: 0xff, ..address };
    assert_eq!(wide.to_data(), 31 + 31 * 32 + 1024 + 7 * 4096);
}

#[test]
fn scrolling_right_enters_the_next_nametable() {
    let start = LoopyAddress { coarse_x: 30, ..LoopyAddress::default() };
    let one = start.scrolled_x();
    assert_eq!((one.coarse_x, one.nametable_x), (31, false));
    let two = one.scrolled_x();
    assert_eq!((two.coarse_x, two.nametable_x), (0, true));
    let three = LoopyAddress { coarse_x: 31, ..two }.scrolled_x();
    assert_eq!((three.coarse_x, three.nametable_x), (0, false));
    assert_eq!(three.coarse_y, 0);
}

#[test]
fn scrolling_down_honours_rows_29_and_31() {
    let start = LoopyAddress { fine_y: 6, coarse_y: 5, ..LoopyAddress::default() };
    let a = start.scrolled_y();
    assert_eq!((a.fine_y, a.coarse_y, a.nametable_y), (7, 5, false));
    let b = a.scrolled_y();
    assert_eq!((b.fine_y, b.coarse_y, b.nametable_y), (0, 6, false));
    let c = LoopyAddress { fine_y: 7, coarse_y: 29, ..start }.scrolled_y();
    assert_eq!((c.fine_y, c.coarse_y, c.nametable_y), (0, 0, true));
    let d = LoopyAddress { fine_y: 7, coarse_y: 31, ..start }.scrolled_y();
    assert_eq!((d.fine_y, d.coarse_y, d.nametable_y), (0, 0, false));
    let e = LoopyAddress { fine_y: 7, coarse_y: 30, ..start }.scrolled_y();
    assert_eq!((e.fine_y, e.coarse_y, e.nametable_y), (0, 31, false));
}

#[test]
fn scroll_fields_copy_over() {
    let from = LoopyAddress {
        coarse_x: 7,
        coarse_y: 9,
        nametable_x: true,
        nametable_y: true,
        fine_y: 3,
        unused: true,
    };
    let to = LoopyAddress::default();
    let x = to.with_x_of(from);
    assert_eq!((x.coarse_x, x.nametable_x), (7, true));
    assert_eq!((x.coarse_y, x.nametable_y, x.fine_y, x.unused), (0, false, 0, false));
    let y = to.with_y_of(from);
    assert_eq!((y.coarse_y, y.nametable_y, y.fine_y), (9, true, 3));
    assert_eq!((y.coarse_x, y.nametable_x, y.unused), (0, false, false));
}

#[test]
fn tile_and_attribute_addresses() {
    let address = LoopyAddress {
        coarse_x: 13,
        coarse_y: 22,
        nametable_x: true,
        nametable_y: false,
        fine_y: 4,
        unused: false,
    };
    assert_eq!(address.tile_address(), 0x2000 | (address.to_data() & 0x0fff));
    assert_eq!(address.tile_address(), 0x2000 + 0x400 + 22 * 32 + 13);
    assert_eq!(address.attribute_address(), 0x23c0 | 0x0400 | ((22 >> 2) << 3) | (13 >> 2));
    let corner = LoopyAddress { coarse_x: 31, coarse_y: 31, nametable_x: true, nametable_y: true, fine_y: 7, unused: false };
    assert_eq!(corner.tile_address(), 0x2fff);
    assert_eq!(corner.attribute_address(), 0x2fff);
}

#[test]
fn attribute_byte_quarters() {
    let byte = 0b11_10_01_00;
    let at = |x: u8, y: u8| LoopyAddress { coarse_x: x, coarse_y: y, ..LoopyAddress::default() };
    assert_eq!(at(0, 0).attribute_bits(byte), 0b00);
    assert_eq!(at(2, 0).attribute_bits(byte), 0b01);
    assert_eq!(at(0, 2).attribute_bits(byte), 0b10);
    assert_eq!(at(2, 2).attribute_bits(byte), 0b11);
    assert_eq!(at(1, 1).attribute_bits(byte), 0b00);
    assert_eq!(at(7, 6).attribute_bits(byte), 0b11);
    assert_eq!(at(5, 3).attribute_bits(byte), 0b10);
}

#[test]
fn flipbyte_reverses_every_byte() {
    for b in 0..=255u8 {
        assert_eq!(flipbyte(b), b.reverse_bits());
    }
    assert_eq!(flipbyte(0b0000_0001), 0b1000_0000);
    assert_eq!(flipbyte(0b1100_1010), 0b0101_0011);
}

#[test]
fn screen_starts_black_and_complete() {
    let screen = Screen::new();
    assert!(screen.complete);
    assert_eq!(screen.buffer.len(), DISPLAY_WIDTH * DISPLAY_HEIGHT);
    assert!(screen.buffer.iter().all(|p| *p == 0));
    assert!(Screen::default().complete);
}

#[test]
fn screen_pixels_are_stored_row_by_row() {
    let mut screen = Screen::new();
    screen.set_pixel(3, 2, 0x123456);
    assert_eq!(screen.get_pixel(3, 2), 0x123456);
    assert_eq!(screen.buffer[3 + 2 * 256], 0x123456);
    screen.set_pixel(255, 239, 0xffffff);
    assert_eq!(screen.buffer[61439], 0xffffff);
    assert_eq!(screen.get_pixel(0, 0), 0);
    assert_eq!(screen.get_pixel(2, 3), 0);
}

#[test]
fn background_shifters_load_and_shift() {
    let mut bg = BgRenderState {
        tile_lsb: 0xab,
        tile_msb: 0xcd,
        tile_attrib: 0b10,
        shifter_pattern_lo: 0x1234,
        shifter_pattern_hi: 0x5678,
        shifter_attrib_lo: 0xffff,
        shifter_attrib_hi: 0x0100,
        ..BgRenderState::default()
    };
    bg.load_shifters();
    assert_eq!(bg.shifter_pattern_lo, 0x12ab);
    assert_eq!(bg.shifter_pattern_hi, 0x56cd);
    assert_eq!(bg.shifter_attrib_lo, 0xff00);
    assert_eq!(bg.shifter_attrib_hi, 0x01ff);
    bg.update_shifters();
    assert_eq!(bg.shifter_pattern_lo, 0x2556);
    assert_eq!(bg.shifter_pattern_hi, 0xad9a);
    assert_eq!(bg.shifter_attrib_lo, 0xfe00);
    assert_eq!(bg.shifter_attrib_hi, 0x03fe);
    bg.tile_attrib = 0b01;
    bg.load_shifters();
    assert_eq!(bg.shifter_attrib_lo, 0xfeff);
    assert_eq!(bg.shifter_attrib_hi, 0x0300);
}

#[test]
fn sprite_shifters_count_down_then_shift() {
    let mut sprites = SpriteRenderState::default();
    sprites.count = 2;
    sprites.scanline[0] = ObjectAttributeEntry { y: 0, id: 0, attr: 0, x: 2 };
    sprites.scanline[1] = ObjectAttributeEntry { y: 0, id: 0, attr: 0, x: 0 };
    sprites.scanline[2] = ObjectAttributeEntry { y: 0, id: 0, attr: 0, x: 9 };
    sprites.shifter_pattern_lo = [0x81; 8];
    sprites.shifter_pattern_hi = [0x40; 8];
    sprites.update_shifters();
    assert_eq!(sprites.scanline[0].x, 1);
    assert_eq!(sprites.shifter_pattern_lo[0], 0x81);
    assert_eq!(sprites.scanline[1].x, 0);
    assert_eq!(sprites.shifter_pattern_lo[1], 0x02);
    assert_eq!(sprites.shifter_pattern_hi[1], 0x80);
    assert_eq!(sprites.scanline[2].x, 9);
    assert_eq!(sprites.shifter_pattern_lo[2], 0x81);
    sprites.clear_shifters();
    assert_eq!(sprites.shifter_pattern_lo, [0; 8]);
    assert_eq!(sprites.shifter_pattern_hi, [0; 8]);
    assert_eq!(sprites.count, 2);
    assert_eq!(sprites.scanline[0].x, 1);
}

#[test]
fn picture_unit_starts_zeroed() {
    let ppu = Ppu::new();
    assert_eq!((ppu.cycle, ppu.scanline), (0, 0));
    assert!(!ppu.odd_frame && !ppu.nmi && !ppu.loopy_latch);
    assert!(ppu.screen.complete);
    assert!(ppu.oam_memory.iter().all(|e| *e == ObjectAttributeEntry { y: 0, id: 0, attr: 0, x: 0 }));
    assert!(ppu.name_table.iter().all(|t| t.iter().all(|b| *b == 0)));
    assert_eq!(ppu.palette_table, [0; 32]);
    assert_eq!(ppu.vram_address.to_data(), 0);
    assert_eq!(ppu.sprite_state.count, 0);
    assert_eq!(ppu.status.to_byte(), 0);
}

#[test]
fn reset_rebuilds_the_picture_unit() {
    let mut cart = cartridge_with(0);
    let mut ppu = Ppu::new();
    ppu.write(&mut cart, 0x2000, 0xff);
    ppu.write(&mut cart, 0x2006, 0x21);
    ppu.write_oam(5, 0x77);
    ppu.cycle = 100;
    ppu.scanline = 50;
    ppu.screen.set_pixel(1, 1, 5);
    ppu.screen.complete = false;
    ppu.reset();
    assert_eq!((ppu.cycle, ppu.scanline), (0, 0));
    assert!(!ppu.ctrl.generate_nmi && !ppu.loopy_latch);
    assert_eq!(ppu.read_oam(5), 0);
    assert_eq!(ppu.screen.get_pixel(1, 1), 0);
    assert!(ppu.screen.complete);
}

#[test]
fn registers_repeat_every_eight_addresses() {
    let mut cart = cartridge_with(0);
    let mut ppu = Ppu::new();
    let range = ppu.address_range();
    assert!(range.contains(0x2000) && range.contains(0x3fff) && !range.contains(0x4000));
    ppu.write(&mut cart, 0x3ff9, 0b0001_1000);
    assert!(ppu.mask.show_background && ppu.mask.show_sprites);
    ppu.write(&mut cart, 0x2008, 0x80);
    assert!(ppu.ctrl.generate_nmi);
    ppu.write(&mut cart, 0x2002, 0xff);
    assert_eq!(ppu.status.to_byte(), 0);
}

#[test]
fn control_write_sets_the_latched_nametable() {
    let mut cart = cartridge_with(0);
    let mut ppu = Ppu::new();
    ppu.write(&mut cart, 0x2000, 0b0000_0011);
    assert!(ppu.tram_address.nametable_x && ppu.tram_address.nametable_y);
    ppu.write(&mut cart, 0x2000, 0b0000_0010);
    assert!(!ppu.tram_address.nametable_x && ppu.tram_address.nametable_y);
    assert_eq!(ppu.vram_address.to_data(), 0);
}

#[test]
fn scroll_writes_alternate_between_x_and_y() {
    let mut cart = cartridge_with(0);
    let mut ppu = Ppu::new();
    ppu.write(&mut cart, 0x2005, 0b10101_011);
    assert_eq!(ppu.fine_x, 0b011);
    assert_eq!(ppu.tram_address.coarse_x, 0b10101);
    assert!(ppu.loopy_latch);
    ppu.write(&mut cart, 0x2005, 0b01010_110);
    assert_eq!(ppu.tram_address.fine_y, 0b110);
    assert_eq!(ppu.tram_address.coarse_y, 0b01010);
    assert!(!ppu.loopy_latch);
    assert_eq!(ppu.fine_x, 0b011);
}

#[test]
fn address_writes_set_the_video_address_high_byte_first() {
    let mut cart = cartridge_with(0);
    let mut ppu = Ppu::new();
    ppu.write(&mut cart, 0x2006, 0x3f);
    assert!(ppu.loopy_latch);
    assert_eq!(ppu.tram_address.to_data(), 0x3f00);
    assert_eq!(ppu.vram_address.to_data(), 0x0000);
    ppu.write(&mut cart, 0x2006, 0x10);
    assert!(!ppu.loopy_latch);
    assert_eq!(ppu.vram_address.to_data(), 0x3f10);
    assert_eq!(ppu.tram_address.to_data(), 0x3f10);
}

#[test]
fn address_high_byte_is_cut_to_six_bits() {
    let mut cart = cartridge_with(0);
    let mut ppu = Ppu::new();
    ppu.write(&mut cart, 0x2006, 0xff);
    ppu.write(&mut cart, 0x2006, 0xee);
    assert_eq!(ppu.vram_address.to_data(), 0x3fee);
}

#[test]
fn palette_read_skips_the_buffer() {
    let mut cart = cartridge_with(0);
    let mut ppu = Ppu::new();
    ppu.write(&mut cart, 0x2006, 0x3f);
    ppu.write(&mut cart, 0x2006, 0x10);
    ppu.write(&mut cart, 0x2007, 0x2a);
    assert_eq!(ppu.vram_address.to_data(), 0x3f11);
    assert_eq!(ppu.palette_table[palette_index(0x10)], 0x2a);
    ppu.ppu_data_buf = 0x77;
    ppu.write(&mut cart, 0x2006, 0x3f);
    ppu.write(&mut cart, 0x2006, 0x10);
    assert_eq!(ppu.vram_address.to_data(), 0x3f10);
    let data = ppu.read(&cart, 0x2007);
    assert_eq!(data, 0x2a);
    assert_eq!(data, ppu.palette_table[palette_index(0x10 & 0x1f)]);
    assert_eq!(ppu.ppu_data_buf, 0x2a);
    assert_eq!(ppu.vram_address.to_data(), 0x3f11);
}

#[test]
fn data_reads_outside_the_palette_are_one_read_late() {
    let mut cart = cartridge_with(0);
    let mut ppu = Ppu::new();
    ppu.write(&mut cart, 0x2006, 0x20);
    ppu.write(&mut cart, 0x2006, 0x05);
    ppu.write(&mut cart, 0x2007, 0x61);
    ppu.write(&mut cart, 0x2007, 0x62);
    ppu.write(&mut cart, 0x2006, 0x20);
    ppu.write(&mut cart, 0x2006, 0x05);
    ppu.ppu_data_buf = 0x99;
    assert_eq!(ppu.read(&cart, 0x2007), 0x99);
    assert_eq!(ppu.read(&cart, 0x2007), 0x61);
    assert_eq!(ppu.read(&cart, 0x2007), 0x62);
    assert_eq!(ppu.vram_address.to_data(), 0x2008);
}

#[test]
fn data_reads_reach_character_storage() {
    let cart = cartridge_with(0);
    let mut ppu = Ppu::new();
    ppu.vram_address.set_data(0x0123);
    assert_eq!(ppu.read(&cart, 0x2007), 0x00);
    assert_eq!(ppu.read(&cart, 0x2007), cart.character_rom[0x0123]);
    assert_eq!(ppu.ppu_data_buf, cart.character_rom[0x0124]);
}

#[test]
fn video_address_steps_by_one_or_by_thirty_two() {
    let mut cart = cartridge_with(0);
    let mut ppu = Ppu::new();
    ppu.vram_address.set_data(0x2000);
    ppu.write(&mut cart, 0x2007, 1);
    assert_eq!(ppu.vram_address.to_data(), 0x2001);
    ppu.write(&mut cart, 0x2000, 0b0000_0100);
    ppu.write(&mut cart, 0x2007, 2);
    assert_eq!(ppu.vram_address.to_data(), 0x2021);
    ppu.vram_address.set_data(0xffff);
    ppu.increment_vram_address();
    assert_eq!(ppu.vram_address.to_data(), 0x001f);
    assert_eq!(ppu.name_table[0][0], 1);
    assert_eq!(ppu.name_table[0][1], 2);
}

#[test]
fn status_read_clears_blank_and_latch() {
    let mut cart = cartridge_with(0);
    let mut ppu = Ppu::new();
    ppu.status.vertical_blank = true;
    ppu.status.sprite_zero_hit = true;
    ppu.ppu_data_buf = 0xff;
    ppu.write(&mut cart, 0x2006, 0x12);
    assert!(ppu.loopy_latch);
    assert_eq!(ppu.read(&cart, 0x2002), 0xdf);
    assert!(!ppu.status.vertical_blank);
    assert!(ppu.status.sprite_zero_hit);
    assert!(!ppu.loopy_latch);
    assert_eq!(ppu.read(&cart, 0x2002), 0x5f);
    ppu.ppu_data_buf = 0x00;
    ppu.status.sprite_overflow = true;
    assert_eq!(ppu.read(&cart, 0x200a), 0x60);
}

#[test]
fn object_data_round_trips_at_every_address() {
    let mut cart = cartridge_with(0);
    let mut ppu = Ppu::new();
    for address in 0..=255u8 {
        ppu.write(&mut cart, 0x2003, address);
        ppu.write(&mut cart, 0x2004, address ^ 0x5a);
        assert_eq!(ppu.read(&cart, 0x2004), address ^ 0x5a);
        assert_eq!(ppu.oam_address, address);
    }
    for address in 0..=255u8 {
        assert_eq!(ppu.read_oam(address), address ^ 0x5a);
    }
    let entry = ppu.oam_memory[3];
    assert_eq!((entry.y, entry.id, entry.attr, entry.x), (12 ^ 0x5a, 13 ^ 0x5a, 14 ^ 0x5a, 15 ^ 0x5a));
}

#[test]
fn write_oam_picks_entry_and_field() {
    let mut ppu = Ppu::new();
    ppu.write_oam(0, 1);
    ppu.write_oam(1, 2);
    ppu.write_oam(2, 3);
    ppu.write_oam(3, 4);
    ppu.write_oam(255, 9);
    assert_eq!(ppu.oam_memory[0], ObjectAttributeEntry { y: 1, id: 2, attr: 3, x: 4 });
    assert_eq!(ppu.oam_memory[63], ObjectAttributeEntry { y: 0, id: 0, attr: 0, x: 9 });
    assert_eq!(ppu.oam_memory[1], ObjectAttributeEntry { y: 0, id: 0, attr: 0, x: 0 });
}

#[test]
fn can_read_names_the_readable_registers() {
    let cart = cartridge_with(0);
    let empty = Cartridge::new();
    let mut ppu = Ppu::new();
    for register in [0x2000u16, 0x2001, 0x2003, 0x2005, 0x2006] {
        assert!(!ppu.can_read(&cart, register));
    }
    assert!(ppu.can_read(&cart, 0x2002));
    assert!(ppu.can_read(&cart, 0x2004));
    assert!(ppu.can_read(&cart, 0x2007));
    assert!(ppu.can_read(&empty, 0x2007));
    ppu.vram_address.set_data(0x2000);
    assert!(ppu.can_read(&cart, 0x2007));
    assert!(!ppu.can_read(&empty, 0x2007));
    assert!(ppu.can_read(&empty, 0x2002));
}

#[test]
fn palette_entries_mirror() {
    assert_eq!(palette_index(0x3f00), 0x00);
    assert_eq!(palette_index(0x3f10), 0x00);
    assert_eq!(palette_index(0x3f14), 0x04);
    assert_eq!(palette_index(0x3f18), 0x08);
    assert_eq!(palette_index(0x3f1c), 0x0c);
    assert_eq!(palette_index(0x3f11), 0x11);
    assert_eq!(palette_index(0x3f04), 0x04);
    assert_eq!(palette_index(0x3fff), 0x1f);
    assert_eq!(palette_index(0x3f30), 0x00);
}

#[test]
fn palette_writes_and_reads_share_the_mirroring() {
    let mut cart = cartridge_with(0);
    let mut ppu = Ppu::new();
    ppu.ppu_write(&mut cart, 0x3f10, 0x11);
    assert_eq!(ppu.palette_table[0x00], 0x11);
    assert_eq!(ppu.palette_table[0x10], 0x00);
    assert_eq!(ppu.ppu_read(&cart, 0x3f00), 0x11);
    assert_eq!(ppu.ppu_read(&cart, 0x3f10), 0x11);
    ppu.ppu_write(&mut cart, 0x3f05, 0x22);
    assert_eq!(ppu.ppu_read(&cart, 0x3f25), 0x22);
    assert_eq!(ppu.ppu_read(&cart, 0x3fe5), 0x22);
    ppu.ppu_write(&mut cart, 0x7f1f, 0x33);
    assert_eq!(ppu.palette_table[0x1f], 0x33);
}

#[test]
fn nametables_mirror_horizontally() {
    assert_eq!(nametable_of(Mirror::Horizontal, 0x000), 0);
    assert_eq!(nametable_of(Mirror::Horizontal, 0x400), 0);
    assert_eq!(nametable_of(Mirror::Horizontal, 0x7ff), 0);
    assert_eq!(nametable_of(Mirror::Horizontal, 0x800), 1);
    assert_eq!(nametable_of(Mirror::Horizontal, 0xfff), 1);
    let mut cart = cartridge_with(0);
    let mut ppu = Ppu::new();
    ppu.ppu_write(&mut cart, 0x2001, 0xa1);
    ppu.ppu_write(&mut cart, 0x2801, 0xb1);
    assert_eq!(ppu.ppu_read(&cart, 0x2401), 0xa1);
    assert_eq!(ppu.ppu_read(&cart, 0x2c01), 0xb1);
    assert_eq!(ppu.ppu_read(&cart, 0x3001), 0xa1);
    assert_eq!(ppu.name_table[0][1], 0xa1);
    assert_eq!(ppu.name_table[1][1], 0xb1);
}

#[test]
fn nametables_mirror_vertically() {
    assert_eq!(nametable_of(Mirror::Vertical, 0x000), 0);
    assert_eq!(nametable_of(Mirror::Vertical, 0x400), 1);
    assert_eq!(nametable_of(Mirror::Vertical, 0x800), 0);
    assert_eq!(nametable_of(Mirror::Vertical, 0xc00), 1);
    let mut cart = cartridge_with(1);
    let mut ppu = Ppu::new();
    ppu.ppu_write(&mut cart, 0x23ff, 0xa2);
    ppu.ppu_write(&mut cart, 0x27ff, 0xb2);
    assert_eq!(ppu.ppu_read(&cart, 0x2bff), 0xa2);
    assert_eq!(ppu.ppu_read(&cart, 0x2fff), 0xb2);
    assert_eq!(ppu.name_table[0][0x3ff], 0xa2);
    assert_eq!(ppu.name_table[1][0x3ff], 0xb2);
}

#[test]
fn video_bus_reaches_character_storage_and_stops_at_14_bits() {
    let mut cart = cartridge_with(0);
    let mut ppu = Ppu::new();
    assert_eq!(ppu.ppu_read(&cart, 0x0042), cart.character_rom[0x42]);
    assert_eq!(ppu.ppu_read(&cart, 0x4000), 0);
    assert_eq!(ppu.ppu_read(&cart, 0xffff), 0);
    ppu.ppu_write(&mut cart, 0x0042, 0x0f);
    assert_eq!(cart.character_rom[0x42], 0x0f);
    ppu.ppu_write(&mut cart, 0x4043, 0x1f);
    assert_eq!(cart.character_rom[0x43], 0x1f);
}

#[test]
fn colours_come_from_the_fixed_table() {
    let mut cart = cartridge_with(0);
    let mut ppu = Ppu::new();
    assert_eq!(PALETTE.len(), 64);
    assert_eq!(PALETTE[0x00], 0x7c7c7c);
    assert_eq!(PALETTE[0x21], 0x3cbcfc);
    assert_eq!(PALETTE[0x3f], 0x000000);
    ppu.ppu_write(&mut cart, 0x3f00, 0x21);
    ppu.ppu_write(&mut cart, 0x3f07, 0x16);
    ppu.ppu_write(&mut cart, 0x3f1d, 0xe1);
    assert_eq!(ppu.get_color_from_palette(&cart, 0, 0), 0x3cbcfc);
    assert_eq!(ppu.get_color_from_palette(&cart, 1, 3), 0xf83800);
    assert_eq!(ppu.get_color_from_palette(&cart, 7, 1), 0x3cbcfc);
    assert_eq!(ppu.get_color_from_palette(&cart, 4, 0), 0x3cbcfc);
    assert_eq!(ppu.get_color_from_palette(&cart, 2, 2), 0x7c7c7c);
}
