use nes_emulator::ppu::render::Screen;
use nes_emulator::texture::Texture;

#[test]
fn new_texture_is_transparent_black() {
    let texture = Texture::new(3, 2);
    assert_eq!((texture.width, texture.height), (3, 2));
    assert_eq!(texture.buffer, vec![0u8; 24]);
    let empty = Texture::new(0, 5);
    assert!(empty.buffer.is_empty());
}

#[test]
fn texture_pixel_is_red_green_blue_alpha() {
    let mut texture = Texture::new(3, 2);
    texture.set_pixel(1, 1, 0x123456);
    let at = (1 * 3 + 1) * 4;
    assert_eq!(texture.buffer[at..at + 4], [0x12, 0x34, 0x56, 0xff]);
    assert!(texture.buffer[..at].iter().all(|b| *b == 0));
    assert!(texture.buffer[at + 4..].iter().all(|b| *b == 0));
    texture.set_pixel(0, 0, 0xff00_00ab);
    assert_eq!(texture.buffer[0..4], [0x00, 0x00, 0xab, 0xff]);
    texture.set_pixel(2, 1, 0xffffff);
    assert_eq!(texture.buffer[20..24], [0xff, 0xff, 0xff, 0xff]);
}

#[test]
fn texture_takes_over_a_whole_frame() {
    let mut screen = Screen::new();
    screen.set_pixel(0, 0, 0x010203);
    screen.set_pixel(255, 0, 0x040506);
    screen.set_pixel(7, 9, 0xa0b0c0);
    screen.set_pixel(255, 239, 0x0000fc);
    let mut texture = Texture::new(256, 240);
    texture.set_pixel(5, 5, 0xffffff);
    texture.copy_screen(&screen);
    assert_eq!(texture.buffer[0..4], [1, 2, 3, 0xff]);
    assert_eq!(texture.buffer[255 * 4..256 * 4], [4, 5, 6, 0xff]);
    let at = (9 * 256 + 7) * 4;
    assert_eq!(texture.buffer[at..at + 4], [0xa0, 0xb0, 0xc0, 0xff]);
    let last = (239 * 256 + 255) * 4;
    assert_eq!(texture.buffer[last..last + 4], [0, 0, 0xfc, 0xff]);
    let other = (5 * 256 + 5) * 4;
    assert_eq!(texture.buffer[other..other + 4], [0, 0, 0, 0xff]);
    assert_eq!(texture.buffer.len(), 256 * 240 * 4);
}

#[test]
fn taking_a_frame_clears_the_mark() {
    let mut screen = Screen::new();
    screen.set_pixel(1, 1, 7);
    assert!(screen.take_frame());
    assert!(!screen.complete);
    assert!(!screen.take_frame());
    assert_eq!(screen.get_pixel(1, 1), 7);
}
