use nes_emulator::bus::Addressable;
use nes_emulator::controller::{Button, Controller};

#[test]
fn joypad_shifts_out_buttons_most_significant_first() {
    let mut pad = Controller::new();
    pad.input = 0b1010_0000;
    pad.write(0x4016, 1);
    let mut bits = Vec::new();
    for _ in 0..8 {
        bits.push(pad.read(0x4016));
    }
    assert_eq!(bits, vec![1, 0, 1, 0, 0, 0, 0, 0]);
}

#[test]
fn joypad_reads_one_once_drained() {
    let mut pad = Controller::new();
    pad.input = 0x00;
    pad.write(0x4016, 0);
    for _ in 0..8 {
        assert_eq!(pad.read(0x4016), 0);
    }
    assert_eq!(pad.state, 0xff);
    for _ in 0..20 {
        assert_eq!(pad.read(0x4016), 1);
    }
}

#[test]
fn joypad_read_shifts_a_one_in() {
    let mut pad = Controller::new();
    pad.input = 0b0100_0000;
    pad.write(0x4016, 0);
    assert_eq!(pad.read(0x4016), 0);
    assert_eq!(pad.state, 0b1000_0001);
    assert_eq!(pad.read(0x4016), 1);
    assert_eq!(pad.state, 0b0000_0011);
    assert_eq!(pad.input, 0b0100_0000);
}

#[test]
fn joypad_write_ignores_the_byte_written() {
    let mut pad = Controller::new();
    pad.input = 0x81;
    pad.write(0x4016, 0x55);
    assert_eq!(pad.state, 0x81);
    assert_eq!(pad.input, 0x81);
}

#[test]
fn joypad_claims_its_one_address() {
    let pad = Controller::default();
    let range = pad.address_range();
    assert!(range.contains(0x4016));
    assert!(!range.contains(0x4015));
    assert!(!range.contains(0x4017));
}

#[test]
fn buttons_have_their_bits() {
    let masks: Vec<u8> = [
        Button::A,
        Button::B,
        Button::Select,
        Button::Start,
        Button::Up,
        Button::Down,
        Button::Left,
        Button::Right,
    ]
    .iter()
    .map(|b| b.mask())
    .collect();
    assert_eq!(masks, vec![0x80, 0x40, 0x20, 0x10, 0x08, 0x04, 0x02, 0x01]);
}

#[test]
fn set_button_changes_one_bit_of_the_input() {
    let mut pad = Controller::new();
    pad.state = 0x33;
    pad.set_button(Button::A, true);
    pad.set_button(Button::Right, true);
    assert_eq!(pad.input, 0x81);
    pad.set_button(Button::A, true);
    assert_eq!(pad.input, 0x81);
    pad.set_button(Button::A, false);
    assert_eq!(pad.input, 0x01);
    pad.set_button(Button::Start, false);
    assert_eq!(pad.input, 0x01);
    assert_eq!(pad.state, 0x33);
}
