use nes_emulator::board::{Board, Device};
use nes_emulator::bus::{Addressable, Bus};
use nes_emulator::dma::DmaDevice;
use nes_emulator::ppu::render::ObjectAttributeEntry;

fn dma_bus(board: &Board) -> Bus {
    let mut bus = Bus::new();
    bus.connect(board, Device::Ram);
    bus.connect(board, Device::Cartridge);
    bus.connect(board, Device::Ppu);
    bus.connect(board, Device::Dma);
    bus.connect(board, Device::Controller);
    bus
}

fn board_with_page(page: u8) -> (Board, Bus) {
    let mut board = Board::new();
    let bus = dma_bus(&board);
    for i in 0..256usize {
        board.ram.data[((page as usize) << 8 | i) & 0x7ff] = (i as u8).wrapping_mul(7).wrapping_add(3);
    }
    (board, bus)
}

fn ticks_until_done(board: &mut Board, bus: &Bus, first_clock: u64) -> u64 {
    let mut ticks = 0;
    let mut clock = first_clock;
    while board.dma.transfer {
        DmaDevice::clock(board, bus, clock);
        clock += 3;
        ticks += 1;
        assert!(ticks <= 1000);
    }
    ticks
}

#[test]
fn controller_starts_idle() {
    let dma = DmaDevice::new();
    assert_eq!(dma, DmaDevice { page: 0, address: 0, data: 0, flag: true, transfer: false });
    assert_eq!(DmaDevice::default(), dma);
    let range = dma.address_range();
    assert!(range.contains(0x4014) && !range.contains(0x4013) && !range.contains(0x4015));
}

#[test]
fn register_write_arms_a_copy_and_reads_zero() {
    let mut dma = DmaDevice::new();
    dma.address = 0x55;
    dma.write(0x4014, 0x07);
    assert_eq!(dma, DmaDevice { page: 0x07, address: 0, data: 0, flag: true, transfer: true });
    assert_eq!(dma.read(0x4014), 0);
    dma.reset();
    assert_eq!(dma, DmaDevice::new());
}

#[test]
fn copy_started_on_an_odd_cycle_takes_513_ticks() {
    let (mut board, bus) = board_with_page(0x02);
    bus.write(&mut board, 0x4014, 0x02);
    assert_eq!(ticks_until_done(&mut board, &bus, 3), 513);
    assert!(board.dma.flag);
    assert_eq!(board.dma.address, 0);
}

#[test]
fn copy_started_on_an_even_cycle_takes_514_ticks() {
    let (mut board, bus) = board_with_page(0x02);
    bus.write(&mut board, 0x4014, 0x02);
    assert_eq!(ticks_until_done(&mut board, &bus, 6), 514);
    assert!(board.dma.flag);
}

#[test]
fn copy_moves_the_page_into_object_memory_in_order() {
    let (mut board, bus) = board_with_page(0x03);
    bus.write(&mut board, 0x4014, 0x03);
    ticks_until_done(&mut board, &bus, 3);
    for i in 0..256usize {
        assert_eq!(board.ppu.read_oam(i as u8), board.ram.data[0x300 + i]);
    }
    for entry in 0..64usize {
        let base = 0x300 + 4 * entry;
        assert_eq!(
            board.ppu.oam_memory[entry],
            ObjectAttributeEntry {
                y: board.ram.data[base],
                id: board.ram.data[base + 1],
                attr: board.ram.data[base + 2],
                x: board.ram.data[base + 3],
            }
        );
    }
}

#[test]
fn copy_reads_through_the_mirror_of_work_memory() {
    let (mut board, bus) = board_with_page(0x1f);
    bus.write(&mut board, 0x4014, 0x1f);
    ticks_until_done(&mut board, &bus, 4);
    for i in 0..256usize {
        assert_eq!(board.ppu.read_oam(i as u8), board.ram.data[0x700 + i]);
    }
}

#[test]
fn copy_from_unmapped_memory_fills_with_zero() {
    let (mut board, bus) = board_with_page(0x02);
    for i in 0..=255u8 {
        board.ppu.write_oam(i, 0xff);
    }
    bus.write(&mut board, 0x4014, 0x50);
    assert_eq!(ticks_until_done(&mut board, &bus, 3), 513);
    for i in 0..=255u8 {
        assert_eq!(board.ppu.read_oam(i), 0);
    }
}

#[test]
fn copy_goes_byte_by_byte() {
    let (mut board, bus) = board_with_page(0x02);
    bus.write(&mut board, 0x4014, 0x02);
    DmaDevice::clock(&mut board, &bus, 2);
    assert!(board.dma.flag);
    DmaDevice::clock(&mut board, &bus, 5);
    assert!(!board.dma.flag);
    assert_eq!(board.dma.address, 0);
    DmaDevice::clock(&mut board, &bus, 8);
    assert_eq!(board.dma.data, board.ram.data[0x200]);
    assert_eq!(board.ppu.read_oam(0), 0);
    DmaDevice::clock(&mut board, &bus, 11);
    assert_eq!(board.ppu.read_oam(0), board.ram.data[0x200]);
    assert_eq!(board.dma.address, 1);
    assert!(board.dma.transfer);
    DmaDevice::clock(&mut board, &bus, 14);
    DmaDevice::clock(&mut board, &bus, 17);
    assert_eq!(board.ppu.read_oam(1), board.ram.data[0x201]);
    assert_eq!(board.ppu.read_oam(2), 0);
    assert_eq!(board.dma.address, 2);
}
