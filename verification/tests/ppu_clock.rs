use nes_emulator::cartridge::Cartridge;
use nes_emulator::ppu::clock::{composite, Pixel, SpritePixel};
use nes_emulator::ppu::render::{ObjectAttributeEntry, PALETTE};
use nes_emulator::ppu::Ppu;

fn clock_image(flags6: u8) -> Vec<u8> {
    let mut data = vec![0x4e, 0x45, 0x53, 0x1a, 1, 1, flags6, 0, 0];
    data.resize(16, 0);
    for i in 0..0x4000usize {
        data.push((i % 251) as u8);
    }
    for i in 0..0x2000usize {
        data.push((i % 241) as u8 ^ 0x80);
    }
    data
}

fn clock_cartridge() -> Cartridge {
    let mut cart = Cartridge::new();
    cart.insert(&clock_image(0)).unwrap();
    cart
}

fn at(cycle: i16, scanline: i16) -> Ppu {
    let mut ppu = Ppu::new();
    ppu.cycle = cycle;
    ppu.scanline = scanline;
    ppu.screen.complete = false;
    ppu
}

#[test]
fn beam_moves_dot_by_dot_and_line_by_line() {
    let cart = clock_cartridge();
    let mut ppu = at(0, 0);
    ppu.clock(&cart);
    assert_eq!((ppu.cycle, ppu.scanline), (1, 0));
    ppu.cycle = 340;
    ppu.clock(&cart);
    assert_eq!((ppu.cycle, ppu.scanline), (0, 1));
    assert!(!ppu.screen.complete);
    ppu.cycle = 340;
    ppu.scanline = 260;
    ppu.clock(&cart);
    assert_eq!((ppu.cycle, ppu.scanline), (0, -1));
    assert!(ppu.screen.complete);
    assert!(ppu.odd_frame);
}

#[test]
fn frame_takes_341_times_262_ticks() {
    let cart = clock_cartridge();
    let mut ppu = at(0, -1);
    let mut completions = 0;
    for tick in 0..341 * 262 {
        assert!(!ppu.screen.complete, "complete before tick {}", tick);
        ppu.clock(&cart);
        if ppu.screen.complete {
            completions += 1;
            assert_eq!(tick, 341 * 262 - 1);
        }
    }
    assert_eq!(completions, 1);
    assert_eq!((ppu.cycle, ppu.scanline), (0, -1));
    assert!(ppu.odd_frame);
}

#[test]
fn odd_frame_without_rendering_is_as_long_as_an_even_one() {
    let cart = clock_cartridge();
    let mut ppu = at(0, -1);
    ppu.odd_frame = true;
    for _ in 0..341 * 262 - 1 {
        ppu.clock(&cart);
        assert!(!ppu.screen.complete);
    }
    ppu.clock(&cart);
    assert!(ppu.screen.complete);
    assert_eq!((ppu.cycle, ppu.scanline), (0, -1));
    assert!(!ppu.odd_frame);
}

#[test]
fn odd_frame_with_rendering_leaves_out_one_dot() {
    let mut cart = clock_cartridge();
    let mut ppu = at(0, -1);
    ppu.odd_frame = true;
    ppu.write(&mut cart, 0x2001, 0b0000_1000);
    let mut ticks = 0;
    while !ppu.screen.complete {
        ppu.clock(&cart);
        ticks += 1;
    }
    assert_eq!(ticks, 341 * 262 - 1);
    assert_eq!((ppu.cycle, ppu.scanline), (0, -1));
    assert!(!ppu.odd_frame);

    let mut skip = at(0, 0);
    skip.odd_frame = true;
    skip.mask.show_sprites = true;
    skip.clock(&cart);
    assert_eq!((skip.cycle, skip.scanline), (2, 0));
}

#[test]
fn vertical_blank_starts_at_line_241_dot_1() {
    let cart = clock_cartridge();
    let mut ppu = at(0, 241);
    ppu.clock(&cart);
    assert!(!ppu.status.vertical_blank);
    ppu.clock(&cart);
    assert!(ppu.status.vertical_blank);
    assert!(!ppu.nmi);
    let mut other = at(1, 240);
    other.clock(&cart);
    assert!(!other.status.vertical_blank);
}

#[test]
fn nmi_is_requested_once_per_frame_and_only_if_enabled() {
    let mut cart = clock_cartridge();
    let mut ppu = at(0, -1);
    ppu.write(&mut cart, 0x2000, 0x80);
    let mut requests = Vec::new();
    for tick in 0..2 * 341 * 262 {
        let where_it_was = (ppu.scanline, ppu.cycle);
        ppu.clock(&cart);
        if ppu.nmi {
            ppu.nmi = false;
            requests.push((tick, where_it_was));
        }
    }
    assert_eq!(
        requests,
        vec![(341 * 242 + 1, (241, 1)), (341 * 262 + 341 * 242 + 1, (241, 1))]
    );

    let mut quiet = at(0, -1);
    for _ in 0..341 * 262 {
        quiet.clock(&cart);
        assert!(!quiet.nmi);
    }
    assert!(quiet.status.vertical_blank);
}

#[test]
fn nmi_depends_on_the_control_register_at_that_dot() {
    let mut cart = clock_cartridge();
    let mut ppu = at(1, 241);
    ppu.clock(&cart);
    assert!(!ppu.nmi);
    ppu.write(&mut cart, 0x2000, 0x80);
    ppu.clock(&cart);
    assert!(!ppu.nmi);
    let mut armed = at(1, 241);
    armed.write(&mut cart, 0x2000, 0x80);
    armed.clock(&cart);
    assert!(armed.nmi);
    armed.clock(&cart);
    assert!(armed.nmi);
}

#[test]
fn line_before_the_picture_clears_the_status() {
    let cart = clock_cartridge();
    let mut ppu = at(1, -1);
    ppu.status.vertical_blank = true;
    ppu.status.sprite_overflow = true;
    ppu.status.sprite_zero_hit = true;
    ppu.sprite_state.shifter_pattern_lo = [0xff; 8];
    ppu.sprite_state.shifter_pattern_hi = [0xff; 8];
    ppu.clock(&cart);
    assert_eq!(ppu.status.to_byte(), 0);
    assert_eq!(ppu.sprite_state.shifter_pattern_lo, [0; 8]);
    assert_eq!(ppu.sprite_state.shifter_pattern_hi, [0; 8]);
    let mut later = at(2, -1);
    later.status.vertical_blank = true;
    later.clock(&cart);
    assert!(later.status.vertical_blank);
}

#[test]
fn background_fetches_follow_the_eight_dot_cycle() {
    let mut cart = clock_cartridge();
    let mut ppu = at(9, 5);
    ppu.write(&mut cart, 0x2001, 0b0000_1000);
    ppu.ppu_write(&mut cart, 0x2000 + 3 * 32 + 7, 0x24);
    ppu.ppu_write(&mut cart, 0x23c0 + 1, 0b10_00_11_01);
    ppu.vram_address.coarse_x = 7;
    ppu.vram_address.coarse_y = 3;
    ppu.vram_address.fine_y = 2;
    ppu.bg_state.tile_lsb = 0xaa;
    ppu.bg_state.tile_msb = 0x55;
    ppu.bg_state.tile_attrib = 0b11;

    ppu.clock(&cart);
    assert_eq!(ppu.bg_state.tile_id, 0x24);
    assert_eq!(ppu.bg_state.shifter_pattern_lo, 0x00aa);
    assert_eq!(ppu.bg_state.shifter_pattern_hi, 0x0055);
    assert_eq!(ppu.bg_state.shifter_attrib_lo, 0x00ff);
    assert_eq!(ppu.bg_state.shifter_attrib_hi, 0x00ff);
    ppu.clock(&cart);
    ppu.clock(&cart);
    assert_eq!(ppu.cycle, 12);
    assert_eq!(ppu.bg_state.tile_attrib, 0b10);
    ppu.clock(&cart);
    ppu.clock(&cart);
    assert_eq!(ppu.bg_state.tile_lsb, cart.character_rom[0x24 * 16 + 2]);
    ppu.clock(&cart);
    ppu.clock(&cart);
    assert_eq!(ppu.bg_state.tile_msb, cart.character_rom[0x24 * 16 + 2 + 8]);
    assert_eq!(ppu.vram_address.coarse_x, 7);
    ppu.clock(&cart);
    assert_eq!(ppu.cycle, 17);
    assert_eq!(ppu.vram_address.coarse_x, 8);
    assert_eq!(ppu.bg_state.shifter_pattern_lo, 0x00aa << 7);
}

#[test]
fn background_pattern_table_follows_the_control_register() {
    let mut cart = clock_cartridge();
    let mut ppu = at(13, 5);
    ppu.write(&mut cart, 0x2000, 0b0001_0000);
    ppu.bg_state.tile_id = 0x10;
    ppu.vram_address.fine_y = 7;
    ppu.clock(&cart);
    assert_eq!(ppu.bg_state.tile_lsb, cart.character_rom[0x1000 + 0x100 + 7]);
    assert_eq!(ppu.pattern_address(true), 0x1000 + 0x100 + 15);
}

#[test]
fn scroll_moves_only_while_rendering() {
    let cart = clock_cartridge();
    let mut ppu = at(8, 5);
    ppu.vram_address.coarse_x = 4;
    ppu.clock(&cart);
    assert_eq!(ppu.vram_address.coarse_x, 4);
    let mut down = at(256, 5);
    down.vram_address.fine_y = 1;
    down.clock(&cart);
    assert_eq!(down.vram_address.fine_y, 1);
    down.cycle = 256;
    down.mask.show_sprites = true;
    down.clock(&cart);
    assert_eq!(down.vram_address.fine_y, 2);
    assert_eq!(down.vram_address.coarse_x, 1);
}

#[test]
fn end_of_line_restores_the_horizontal_scroll() {
    let cart = clock_cartridge();
    let mut ppu = at(257, 5);
    ppu.mask.show_background = true;
    ppu.tram_address.coarse_x = 9;
    ppu.tram_address.nametable_x = true;
    ppu.tram_address.coarse_y = 11;
    ppu.vram_address.coarse_x = 1;
    ppu.vram_address.coarse_y = 2;
    ppu.clock(&cart);
    assert_eq!(ppu.vram_address.coarse_x, 9);
    assert!(ppu.vram_address.nametable_x);
    assert_eq!(ppu.vram_address.coarse_y, 2);
}

#[test]
fn line_before_the_picture_restores_the_vertical_scroll() {
    let cart = clock_cartridge();
    for (cycle, copied) in [(279, false), (280, true), (304, true), (305, false)] {
        let mut ppu = at(cycle, -1);
        ppu.mask.show_background = true;
        ppu.tram_address.coarse_y = 11;
        ppu.tram_address.fine_y = 3;
        ppu.tram_address.nametable_y = true;
        ppu.clock(&cart);
        assert_eq!(ppu.vram_address.coarse_y == 11, copied, "dot {}", cycle);
        assert_eq!(ppu.vram_address.fine_y == 3, copied);
        assert_eq!(ppu.vram_address.nametable_y, copied);
    }
    let mut picture = at(280, 0);
    picture.mask.show_background = true;
    picture.tram_address.coarse_y = 11;
    picture.clock(&cart);
    assert_eq!(picture.vram_address.coarse_y, 0);
}

#[test]
fn sprite_search_picks_the_first_eight_on_the_line() {
    let cart = clock_cartridge();
    let mut ppu = at(257, 20);
    for i in 0..64usize {
        ppu.oam_memory[i] = ObjectAttributeEntry { y: 200, id: i as u8, attr: 0, x: i as u8 };
    }
    for i in [1usize, 4, 5, 9, 20, 21, 22, 40, 41, 63] {
        ppu.oam_memory[i].y = 13 + (i % 8) as u8;
    }
    ppu.oam_memory[2].y = 21;
    ppu.oam_memory[3].y = 12;
    ppu.clock(&cart);
    assert_eq!(ppu.sprite_state.count, 8);
    let ids: Vec<u8> = ppu.sprite_state.scanline.iter().map(|e| e.id).collect();
    assert_eq!(ids, vec![1, 4, 5, 9, 20, 21, 22, 40]);
    assert!(ppu.status.sprite_overflow);
    assert!(!ppu.sprite_zero_hit_possible);
    assert_eq!(ppu.sprite_state.scanline[3], ObjectAttributeEntry { y: 14, id: 9, attr: 0, x: 9 });
}

#[test]
fn eight_sprites_on_a_line_do_not_overflow() {
    let cart = clock_cartridge();
    let mut ppu = at(257, 20);
    for i in 0..64usize {
        ppu.oam_memory[i] = ObjectAttributeEntry { y: 200, id: i as u8, attr: 0, x: 0 };
    }
    for i in 0..8usize {
        ppu.oam_memory[i * 3].y = 20;
    }
    ppu.sprite_state.count = 5;
    ppu.sprite_state.shifter_pattern_lo = [0xff; 8];
    ppu.clock(&cart);
    assert_eq!(ppu.sprite_state.count, 8);
    assert!(!ppu.status.sprite_overflow);
    assert!(ppu.sprite_zero_hit_possible);
    assert_eq!(ppu.sprite_state.shifter_pattern_lo, [0; 8]);
    assert_eq!(ppu.sprite_state.scanline[7].id, 21);
}

#[test]
fn sprite_search_clears_what_was_chosen_before() {
    let cart = clock_cartridge();
    let mut ppu = at(257, 100);
    for i in 0..64usize {
        ppu.oam_memory[i].y = 200;
    }
    ppu.oam_memory[7] = ObjectAttributeEntry { y: 93, id: 0x42, attr: 1, x: 2 };
    ppu.sprite_state.count = 8;
    ppu.sprite_state.scanline = [ObjectAttributeEntry { y: 1, id: 1, attr: 1, x: 1 }; 8];
    ppu.sprite_zero_hit_possible = true;
    ppu.clock(&cart);
    assert_eq!(ppu.sprite_state.count, 1);
    assert_eq!(ppu.sprite_state.scanline[0], ObjectAttributeEntry { y: 93, id: 0x42, attr: 1, x: 2 });
    assert_eq!(ppu.sprite_state.scanline[1], ObjectAttributeEntry { y: 0, id: 0, attr: 0, x: 0 });
    assert!(!ppu.sprite_zero_hit_possible);
    assert!(!ppu.status.sprite_overflow);
}

#[test]
fn sprite_height_follows_the_control_register() {
    let mut cart = clock_cartridge();
    let mut ppu = at(0, 28);
    assert!(ppu.on_line(28) && ppu.on_line(21) && !ppu.on_line(20) && !ppu.on_line(29));
    ppu.write(&mut cart, 0x2000, 0b0010_0000);
    assert!(ppu.on_line(20) && ppu.on_line(13) && !ppu.on_line(12) && !ppu.on_line(29));
    let before_picture = at(0, -1);
    assert!(!before_picture.on_line(0) && !before_picture.on_line(255));
}

#[test]
fn sprite_search_happens_on_picture_lines_only() {
    let cart = clock_cartridge();
    let mut ppu = at(257, -1);
    ppu.sprite_state.count = 3;
    ppu.clock(&cart);
    assert_eq!(ppu.sprite_state.count, 3);
    let mut later = at(256, 0);
    later.sprite_state.count = 3;
    later.clock(&cart);
    assert_eq!(later.sprite_state.count, 3);
    let mut blank = at(257, 240);
    blank.sprite_state.count = 3;
    blank.clock(&cart);
    assert_eq!(blank.sprite_state.count, 3);
}

#[test]
fn sprite_patterns_are_fetched_at_dot_340() {
    let cart = clock_cartridge();
    let chr = &cart.character_rom;
    let mut ppu = at(340, 12);
    ppu.sprite_state.count = 3;
    ppu.sprite_state.scanline[0] = ObjectAttributeEntry { y: 10, id: 2, attr: 0x00, x: 5 };
    ppu.sprite_state.scanline[1] = ObjectAttributeEntry { y: 10, id: 2, attr: 0x80, x: 5 };
    ppu.sprite_state.scanline[2] = ObjectAttributeEntry { y: 7, id: 3, attr: 0x40, x: 5 };
    ppu.sprite_state.scanline[3] = ObjectAttributeEntry { y: 12, id: 9, attr: 0x00, x: 5 };
    ppu.clock(&cart);
    assert_eq!(ppu.sprite_state.shifter_pattern_lo[0], chr[2 * 16 + 2]);
    assert_eq!(ppu.sprite_state.shifter_pattern_hi[0], chr[2 * 16 + 2 + 8]);
    assert_eq!(ppu.sprite_state.shifter_pattern_lo[1], chr[2 * 16 + 5]);
    assert_eq!(ppu.sprite_state.shifter_pattern_hi[1], chr[2 * 16 + 5 + 8]);
    assert_eq!(ppu.sprite_state.shifter_pattern_lo[2], chr[3 * 16 + 5].reverse_bits());
    assert_eq!(ppu.sprite_state.shifter_pattern_hi[2], chr[3 * 16 + 5 + 8].reverse_bits());
    assert_eq!(ppu.sprite_state.shifter_pattern_lo[3], 0);
    assert_eq!((ppu.cycle, ppu.scanline), (0, 13));
}

#[test]
fn sprite_pattern_addresses() {
    let mut cart = clock_cartridge();
    let mut ppu = at(0, 12);
    let plain = ObjectAttributeEntry { y: 10, id: 0x21, attr: 0, x: 0 };
    let flipped = ObjectAttributeEntry { attr: 0x80, ..plain };
    assert_eq!(ppu.sprite_row(plain), 2);
    assert_eq!(ppu.sprite_row(flipped), 5);
    assert_eq!(ppu.sprite_address(plain), 0x0210 + 2);
    ppu.write(&mut cart, 0x2000, 0b0000_1000);
    assert_eq!(ppu.sprite_address(plain), 0x1210 + 2);
    assert_eq!(ppu.sprite_address(flipped), 0x1210 + 5);
    ppu.write(&mut cart, 0x2000, 0b0010_0000);
    assert_eq!(ppu.sprite_address(plain), 0x1000 + 0x200 + 2);
    assert_eq!(ppu.sprite_address(flipped), 0x1000 + 0x200 + 5);
    let even = ObjectAttributeEntry { y: 1, id: 0x20, attr: 0, x: 0 };
    assert_eq!(ppu.sprite_row(even), 3);
    assert_eq!(ppu.sprite_address(even), 0x0200 + 3);
    let stale = at(0, -1);
    assert_eq!(stale.sprite_row(ObjectAttributeEntry { y: 238, id: 0, attr: 0, x: 0 }), 1);
    assert_eq!(stale.sprite_row(ObjectAttributeEntry { y: 0, id: 0, attr: 0, x: 0 }), 7);
}

#[test]
fn sprite_planes_flip_horizontally() {
    let cart = clock_cartridge();
    let ppu = Ppu::new();
    let byte = cart.character_rom[0x33];
    assert_eq!(ppu.sprite_plane(&cart, 0x33, 0x00), byte);
    assert_eq!(ppu.sprite_plane(&cart, 0x33, 0x40), byte.reverse_bits());
    assert_eq!(ppu.sprite_plane(&cart, 0x33, 0xbf), byte);
}

#[test]
fn layers_are_put_together_by_priority() {
    let bg = Pixel { pixel: 2, palette: 1 };
    let none = Pixel { pixel: 0, palette: 3 };
    let front = SpritePixel { pixel: 3, palette: 5, priority: true, zero: false };
    let behind = SpritePixel { pixel: 1, palette: 6, priority: false, zero: false };
    let clear = SpritePixel { pixel: 0, palette: 7, priority: true, zero: false };
    assert_eq!(composite(none, clear), Pixel { pixel: 0, palette: 0 });
    assert_eq!(composite(none, front), Pixel { pixel: 3, palette: 5 });
    assert_eq!(composite(none, behind), Pixel { pixel: 1, palette: 6 });
    assert_eq!(composite(bg, clear), Pixel { pixel: 2, palette: 1 });
    assert_eq!(composite(bg, front), Pixel { pixel: 3, palette: 5 });
    assert_eq!(composite(bg, behind), Pixel { pixel: 2, palette: 1 });
}

#[test]
fn background_pixel_is_picked_by_fine_x() {
    let mut ppu = at(20, 5);
    ppu.bg_state.shifter_pattern_lo = 0b1010_0000_0000_0000;
    ppu.bg_state.shifter_pattern_hi = 0b0110_0000_0000_0000;
    ppu.bg_state.shifter_attrib_lo = 0xffff;
    ppu.bg_state.shifter_attrib_hi = 0x0000;
    assert_eq!(ppu.background_pixel(), Pixel { pixel: 0, palette: 0 });
    ppu.mask.show_background = true;
    assert_eq!(ppu.background_pixel(), Pixel { pixel: 1, palette: 1 });
    ppu.fine_x = 1;
    assert_eq!(ppu.background_pixel(), Pixel { pixel: 2, palette: 1 });
    ppu.fine_x = 2;
    assert_eq!(ppu.background_pixel(), Pixel { pixel: 3, palette: 1 });
    ppu.fine_x = 3;
    assert_eq!(ppu.background_pixel(), Pixel { pixel: 0, palette: 1 });
    ppu.fine_x = 0;
    ppu.cycle = 8;
    assert_eq!(ppu.background_pixel(), Pixel { pixel: 0, palette: 0 });
    ppu.mask.show_background_left = true;
    assert_eq!(ppu.background_pixel(), Pixel { pixel: 1, palette: 1 });
}

#[test]
fn first_sprite_with_a_pixel_wins() {
    let mut ppu = at(40, 5);
    ppu.mask.show_sprites = true;
    ppu.sprite_state.count = 3;
    ppu.sprite_state.scanline[0] = ObjectAttributeEntry { y: 0, id: 0, attr: 0x01, x: 0 };
    ppu.sprite_state.scanline[1] = ObjectAttributeEntry { y: 0, id: 0, attr: 0x22, x: 0 };
    ppu.sprite_state.scanline[2] = ObjectAttributeEntry { y: 0, id: 0, attr: 0x03, x: 0 };
    ppu.sprite_state.shifter_pattern_lo = [0x00, 0x80, 0x80, 0x80, 0, 0, 0, 0];
    ppu.sprite_state.shifter_pattern_hi = [0x7f, 0x00, 0x80, 0x80, 0, 0, 0, 0];
    assert_eq!(
        ppu.foreground_pixel(),
        SpritePixel { pixel: 1, palette: 6, priority: false, zero: false }
    );
    assert_eq!(ppu.sprite_state.first_opaque(), 1);
    ppu.sprite_state.scanline[1].x = 3;
    assert_eq!(
        ppu.foreground_pixel(),
        SpritePixel { pixel: 3, palette: 7, priority: true, zero: false }
    );
    ppu.sprite_state.shifter_pattern_hi[0] = 0x80;
    assert_eq!(
        ppu.foreground_pixel(),
        SpritePixel { pixel: 2, palette: 5, priority: true, zero: true }
    );
    ppu.sprite_state.count = 0;
    assert_eq!(
        ppu.foreground_pixel(),
        SpritePixel { pixel: 0, palette: 0, priority: false, zero: false }
    );
    assert_eq!(ppu.sprite_state.first_opaque(), 0);
    ppu.sprite_state.count = 3;
    ppu.mask.show_sprites = false;
    assert_eq!(ppu.foreground_pixel().pixel, 0);
    ppu.mask.show_sprites = true;
    ppu.cycle = 8;
    assert_eq!(ppu.foreground_pixel().pixel, 0);
    ppu.mask.show_sprites_left = true;
    assert_eq!(ppu.foreground_pixel().pixel, 2);
}

#[test]
fn pixel_goes_to_the_screen_inside_the_picture() {
    let mut cart = clock_cartridge();
    let mut ppu = at(1, 0);
    ppu.ppu_write(&mut cart, 0x3f00, 0x0f);
    ppu.ppu_write(&mut cart, 0x3f06, 0x21);
    ppu.mask.show_background = true;
    ppu.mask.show_background_left = true;
    ppu.bg_state.shifter_pattern_hi = 0x8000;
    ppu.bg_state.shifter_attrib_lo = 0x8000;
    ppu.clock(&cart);
    assert_eq!(ppu.screen.get_pixel(0, 0), PALETTE[0x21]);
    assert_eq!(ppu.screen.get_pixel(1, 0), 0);

    let mut last = at(256, 239);
    last.ppu_write(&mut cart, 0x3f00, 0x16);
    last.clock(&cart);
    assert_eq!(last.screen.get_pixel(255, 239), PALETTE[0x16]);

    for (cycle, scanline) in [(0, 0), (257, 0), (1, -1), (1, 240), (340, 100)] {
        let mut outside = at(cycle, scanline);
        outside.ppu_write(&mut cart, 0x3f00, 0x16);
        outside.clock(&cart);
        assert!(outside.screen.buffer.iter().all(|p| *p == 0), "dot {} line {}", cycle, scanline);
    }
}

#[test]
fn sprite_zero_hit_needs_both_layers_and_the_first_sprite() {
    let cart = clock_cartridge();
    let hit = |prepare: fn(&mut Ppu)| -> bool {
        let mut ppu = at(100, 50);
        ppu.mask.show_background = true;
        ppu.mask.show_sprites = true;
        ppu.bg_state.shifter_pattern_lo = 0x8000;
        ppu.sprite_state.count = 1;
        ppu.sprite_state.shifter_pattern_lo[0] = 0x80;
        ppu.sprite_zero_hit_possible = true;
        prepare(&mut ppu);
        ppu.render(&cart);
        ppu.status.sprite_zero_hit
    };
    assert!(hit(|_| {}));
    assert!(!hit(|p| p.sprite_zero_hit_possible = false));
    assert!(!hit(|p| p.bg_state.shifter_pattern_lo = 0));
    assert!(!hit(|p| p.sprite_state.shifter_pattern_lo[0] = 0));
    assert!(!hit(|p| p.mask.show_background = false));
    assert!(!hit(|p| p.sprite_state.scanline[0].x = 1));
    assert!(!hit(|p| p.cycle = 258));
    assert!(hit(|p| p.cycle = 257));
    assert!(!hit(|p| p.cycle = 8));
    assert!(hit(|p| p.cycle = 9));
    assert!(hit(|p| {
        p.cycle = 8;
        p.mask.show_background_left = true;
        p.mask.show_sprites_left = true;
    }));
    assert!(!hit(|p| {
        p.sprite_state.count = 2;
        p.sprite_state.shifter_pattern_lo = [0x00, 0x80, 0, 0, 0, 0, 0, 0];
    }));
}

#[test]
fn sprite_zero_flag_keeps_its_value_while_sprites_are_hidden() {
    let cart = clock_cartridge();
    let mut ppu = at(100, 50);
    ppu.sprite_zero_being_rendered = true;
    ppu.render(&cart);
    assert!(ppu.sprite_zero_being_rendered);
    ppu.mask.show_sprites = true;
    ppu.render(&cart);
    assert!(!ppu.sprite_zero_being_rendered);
}

#[test]
fn shifters_move_only_for_layers_that_are_shown() {
    let cart = clock_cartridge();
    let mut ppu = at(50, 5);
    ppu.bg_state.shifter_pattern_lo = 0x0001;
    ppu.sprite_state.count = 1;
    ppu.sprite_state.scanline[0].x = 4;
    ppu.update_shifters();
    assert_eq!(ppu.bg_state.shifter_pattern_lo, 0x0001);
    assert_eq!(ppu.sprite_state.scanline[0].x, 4);
    ppu.mask.show_background = true;
    ppu.update_shifters();
    assert_eq!(ppu.bg_state.shifter_pattern_lo, 0x0002);
    assert_eq!(ppu.sprite_state.scanline[0].x, 4);
    ppu.mask.show_sprites = true;
    ppu.update_shifters();
    assert_eq!(ppu.sprite_state.scanline[0].x, 3);
    ppu.cycle = 330;
    ppu.update_shifters();
    assert_eq!(ppu.sprite_state.scanline[0].x, 3);
    assert_eq!(ppu.bg_state.shifter_pattern_lo, 0x0008);
    let _ = cart;
}

#[test]
fn nothing_is_drawn_during_vertical_blank() {
    let cart = clock_cartridge();
    let mut ppu = at(9, 245);
    ppu.mask.show_background = true;
    ppu.bg_state.tile_lsb = 0xff;
    ppu.vram_address.coarse_x = 3;
    for _ in 0..16 {
        ppu.clock(&cart);
    }
    assert_eq!(ppu.bg_state.shifter_pattern_lo, 0);
    assert_eq!(ppu.vram_address.coarse_x, 3);
    assert_eq!((ppu.cycle, ppu.scanline), (25, 245));
}

#[test]
fn sprite_overflow_stays_set_until_the_next_frame() {
    let cart = clock_cartridge();
    let mut ppu = at(257, 20);
    for i in 0..64usize {
        ppu.oam_memory[i].y = 200;
    }
    ppu.status.sprite_overflow = true;
    ppu.clock(&cart);
    assert_eq!(ppu.sprite_state.count, 0);
    assert!(ppu.status.sprite_overflow);
}

#[test]
fn ninth_sprite_is_the_one_that_overflows() {
    let cart = clock_cartridge();
    let mut ppu = at(0, 30);
    for i in 0..64usize {
        ppu.oam_memory[i].y = 200;
    }
    for i in 0..9usize {
        ppu.oam_memory[i + 10].y = 30;
    }
    ppu.evaluate_start();
    for index in 0..18 {
        ppu.evaluate_entry(index);
    }
    assert_eq!(ppu.sprite_state.count, 8);
    assert!(!ppu.status.sprite_overflow);
    ppu.evaluate_entry(18);
    assert_eq!(ppu.sprite_state.count, 8);
    assert!(ppu.status.sprite_overflow);
}
