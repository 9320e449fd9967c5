use nes_emulator::cartridge::{CartridgeError, Mirror};
use nes_emulator::cpu::flags::Flags;
use nes_emulator::nes::Nes;

fn nes_image(program: &[u8], reset: u16, nmi: u16) -> Vec<u8> {
    let mut data = vec![0x4e, 0x45, 0x53, 0x1a, 1, 1, 0, 0, 0];
    data.resize(16, 0);
    let mut prg = vec![0xeau8; 0x4000];
    prg[..program.len()].copy_from_slice(program);
    prg[0x3ffa] = nmi as u8;
    prg[0x3ffb] = (nmi >> 8) as u8;
    prg[0x3ffc] = reset as u8;
    prg[0x3ffd] = (reset >> 8) as u8;
    prg[0x3ffe] = 0x00;
    prg[0x3fff] = 0x90;
    data.extend_from_slice(&prg);
    data.extend(std::iter::repeat(0x00).take(0x2000));
    data
}

#[test]
fn new_console_is_wired_and_waits_for_a_cartridge() {
    let nes = Nes::new();
    assert!(!nes.rom_loaded);
    assert_eq!(nes.clock, 0);
    assert_eq!(nes.cpu.bus.connections.len(), 5);
    assert!(!nes.board.cartridge.valid);
    assert_eq!(nes.board.cartridge.mirror, Mirror::Unset);
    assert!(!Nes::default().rom_loaded);
}

#[test]
fn inserted_cartridge_gives_the_reset_vector() {
    let mut data = vec![0x4e, 0x45, 0x53, 0x1a, 1, 1, 0, 0, 0];
    data.resize(16, 0);
    let mut prg = vec![0u8; 0x4000];
    prg[0x3ffc] = 0x34;
    prg[0x3ffd] = 0x92;
    data.extend_from_slice(&prg);
    data.extend(std::iter::repeat(0).take(0x2000));
    assert_eq!(data.len(), 16 + 16 * 1024 + 8 * 1024);

    let mut nes = Nes::new();
    assert_eq!(nes.insert_cartridge(&data), Ok(()));
    assert!(nes.rom_loaded);
    assert!(nes.board.cartridge.valid);
    assert_eq!(nes.cpu.regs.pc, 0x9234);
    assert_eq!(nes.cpu.regs.s, 0xfd);
    assert_eq!(nes.cpu.regs.cycles, 7);
    assert_eq!(
        nes.cpu.regs.flags,
        Flags {
            carry: false,
            zero: false,
            interrupt: true,
            decimal: false,
            _break: false,
            unused: true,
            overflow: false,
            negative: false
        }
    );
    assert_eq!(nes.clock, 1);
    assert_eq!(nes.board.cartridge.mirror, Mirror::Horizontal);
}

#[test]
fn rejected_cartridge_changes_nothing() {
    let mut nes = Nes::new();
    assert_eq!(nes.insert_cartridge(&[1, 2, 3, 4, 5]), Err(CartridgeError::BadMagic));
    assert!(!nes.rom_loaded);
    assert_eq!(nes.clock, 0);

    assert_eq!(nes.insert_cartridge(&nes_image(&[], 0x8000, 0x8000)), Ok(()));
    nes.board.ram.data[5] = 9;
    nes.cpu.regs.a = 0x44;
    nes.clock = 1234;
    let mut unsupported = nes_image(&[], 0x8100, 0x8000);
    unsupported[6] = 0x10;
    assert_eq!(nes.insert_cartridge(&unsupported), Err(CartridgeError::UnsupportedMapper(1)));
    let mut short = nes_image(&[], 0x8100, 0x8000);
    short.truncate(1000);
    assert_eq!(nes.insert_cartridge(&short), Err(CartridgeError::Truncated));
    assert!(nes.rom_loaded);
    assert_eq!(nes.cpu.regs.a, 0x44);
    assert_eq!(nes.cpu.regs.pc, 0x8000);
    assert_eq!(nes.clock, 1234);
    assert_eq!(nes.board.ram.data[5], 9);
}

#[test]
fn inserting_again_resets_the_console() {
    let mut nes = Nes::new();
    nes.insert_cartridge(&nes_image(&[], 0x8000, 0x8000)).unwrap();
    nes.board.ppu.screen.complete = false;
    for _ in 0..1000 {
        nes.clock();
    }
    nes.board.dma.transfer = true;
    nes.board.ppu.write_oam(0, 5);
    nes.insert_cartridge(&nes_image(&[], 0x8abc, 0x8000)).unwrap();
    assert_eq!(nes.cpu.regs.pc, 0x8abc);
    assert_eq!(nes.clock, 1);
    assert_eq!((nes.board.ppu.cycle, nes.board.ppu.scanline), (0, 0));
    assert!(!nes.board.dma.transfer);
    assert_eq!(nes.board.ppu.read_oam(0), 0);
    assert_eq!(nes.cpu.regs.total_cycles, 0);
}

#[test]
fn processor_runs_on_every_third_tick() {
    let mut nes = Nes::new();
    nes.insert_cartridge(&nes_image(&[], 0x8000, 0x8000)).unwrap();
    assert_eq!(nes.clock, 1);
    nes.clock();
    nes.clock();
    assert_eq!(nes.cpu.regs.total_cycles, 0);
    assert_eq!(nes.board.ppu.cycle, 2);
    nes.clock();
    assert_eq!(nes.cpu.regs.total_cycles, 1);
    assert_eq!(nes.cpu.regs.cycles, 6);
    assert_eq!(nes.board.ppu.cycle, 3);
    assert_eq!(nes.clock, 4);
    for _ in 0..18 {
        nes.clock();
    }
    assert_eq!(nes.cpu.regs.total_cycles, 7);
    assert_eq!(nes.cpu.regs.cycles, 0);
    assert_eq!(nes.cpu.regs.pc, 0x8000);
    for _ in 0..3 {
        nes.clock();
    }
    assert_eq!(nes.cpu.regs.pc, 0x8001);
    assert_eq!(nes.cpu.regs.cycles, 1);
}

#[test]
fn program_in_the_cartridge_runs() {
    let program = [0xa9, 0x42, 0x8d, 0x00, 0x03, 0xa2, 0x07, 0x4c, 0x07, 0x80];
    let mut nes = Nes::new();
    nes.insert_cartridge(&nes_image(&program, 0x8000, 0x8000)).unwrap();
    for _ in 0..3 * 40 {
        nes.clock();
    }
    assert_eq!(nes.cpu.regs.a, 0x42);
    assert_eq!(nes.board.ram.data[0x0300], 0x42);
    assert_eq!(nes.cpu.regs.x, 0x07);
    assert_eq!(nes.cpu.regs.pc, 0x8007);
}

#[test]
fn brk_takes_its_vector_from_the_top_of_the_cartridge() {
    let mut nes = Nes::new();
    nes.insert_cartridge(&nes_image(&[0x00], 0x8000, 0x8000)).unwrap();
    nes.cpu.regs.cycles = 0;
    nes.cpu.clock(&mut nes.board);
    assert_eq!(nes.cpu.regs.pc, 0x9000);
    assert_eq!(nes.board.ram.data[0x01fd], 0x80);
    assert_eq!(nes.board.ram.data[0x01fc], 0x02);
    assert_eq!(nes.board.ram.data[0x01fb], 0b0011_0100);
}

#[test]
fn update_runs_until_the_frame_is_complete() {
    let mut nes = Nes::new();
    nes.insert_cartridge(&nes_image(&[0x4c, 0x00, 0x80], 0x8000, 0x8000)).unwrap();
    assert!(nes.board.ppu.screen.complete);
    nes.update();
    assert_eq!(nes.clock, 1);
    nes.board.ppu.screen.complete = false;
    nes.update();
    assert!(nes.board.ppu.screen.complete);
    assert_eq!((nes.board.ppu.cycle, nes.board.ppu.scanline), (0, -1));
    assert_eq!(nes.clock, 1 + 341 * 261);
    nes.board.ppu.screen.complete = false;
    nes.update();
    assert_eq!(nes.clock, 1 + 341 * 261 + 341 * 262);
    assert_eq!(nes.cpu.regs.total_cycles, (341 * 261 + 341 * 262) / 3);
}

#[test]
fn update_does_nothing_without_a_cartridge() {
    let mut nes = Nes::new();
    nes.board.ppu.screen.complete = false;
    nes.update();
    assert_eq!(nes.clock, 0);
    assert_eq!((nes.board.ppu.cycle, nes.board.ppu.scanline), (0, 0));
    assert!(!nes.board.ppu.screen.complete);
}

#[test]
fn nmi_reaches_the_processor() {
    let program = [0xa9, 0x80, 0x8d, 0x00, 0x20, 0x4c, 0x05, 0x80];
    let mut image = nes_image(&program, 0x8000, 0x8100);
    image[16 + 0x100] = 0xe8;
    image[16 + 0x101] = 0x4c;
    image[16 + 0x102] = 0x01;
    image[16 + 0x103] = 0x81;
    let mut nes = Nes::new();
    nes.insert_cartridge(&image).unwrap();
    nes.board.ppu.screen.complete = false;
    nes.update();
    assert!(nes.board.ppu.ctrl.generate_nmi);
    assert!(!nes.board.ppu.nmi);
    assert!(nes.board.ppu.status.vertical_blank);
    assert_eq!(nes.cpu.regs.x, 1);
    assert_eq!(nes.cpu.regs.pc, 0x8101);
    assert_eq!(nes.cpu.regs.s, 0xfa);
    assert_eq!(nes.board.ram.data[0x01fd], 0x80);
    assert!(nes.cpu.regs.flags.interrupt);
}

#[test]
fn sprite_copy_holds_the_processor() {
    let program = [0xa9, 0x02, 0x8d, 0x14, 0x40, 0xe8, 0x4c, 0x06, 0x80];
    let mut nes = Nes::new();
    nes.insert_cartridge(&nes_image(&program, 0x8000, 0x8000)).unwrap();
    for i in 0..256usize {
        nes.board.ram.data[0x200 + i] = i as u8 ^ 0xa5;
    }
    while !nes.board.dma.transfer {
        nes.clock();
    }
    let cycles_before = nes.cpu.regs.total_cycles;
    let started = nes.clock;
    while nes.board.dma.transfer {
        nes.clock();
        assert_eq!(nes.cpu.regs.total_cycles, cycles_before);
    }
    let copy_ticks = (nes.clock - started + 2) / 3;
    assert!(copy_ticks == 513 || copy_ticks == 514, "{}", copy_ticks);
    for i in 0..=255u8 {
        assert_eq!(nes.board.ppu.read_oam(i), i ^ 0xa5);
    }
    for _ in 0..30 {
        nes.clock();
    }
    assert!(nes.cpu.regs.total_cycles > cycles_before);
    assert_eq!(nes.cpu.regs.x, 1);
}

#[test]
fn joypad_is_read_through_the_console() {
    let program = [
        0xa9, 0x01, 0x8d, 0x16, 0x40, 0xad, 0x16, 0x40, 0x85, 0x10, 0xad, 0x16, 0x40, 0x85, 0x11,
        0x4c, 0x0f, 0x80,
    ];
    let mut nes = Nes::new();
    nes.insert_cartridge(&nes_image(&program, 0x8000, 0x8000)).unwrap();
    nes.board.controller.input = 0b1000_0000;
    for _ in 0..3 * 60 {
        nes.clock();
    }
    assert_eq!(nes.board.ram.data[0x10], 1);
    assert_eq!(nes.board.ram.data[0x11], 0);
}

#[test]
fn console_stays_well_formed() {
    let mut nes = Nes::new();
    assert!(nes.well_formed());
    nes.insert_cartridge(&nes_image(&[], 0x8000, 0x8000)).unwrap();
    assert!(nes.well_formed());
    nes.board.ppu.screen.complete = false;
    nes.update();
    assert!(nes.well_formed());
    nes.board.ppu.cycle = 341;
    assert!(!nes.well_formed());
    nes.board.ppu.cycle = 0;
    nes.board.ppu.sprite_state.count = 9;
    assert!(!nes.well_formed());
    nes.board.ppu.sprite_state.count = 0;
    nes.cpu.bus.connections[0].address_range.end = 0x1fff;
    assert!(!nes.well_formed());
}
