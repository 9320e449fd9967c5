use nes_emulator::board::{Board, Device};
use nes_emulator::bus::{AddressRange, Addressable, Bus};
use nes_emulator::ram::Ram;

fn wired_bus(board: &Board) -> Bus {
    let mut bus = Bus::new();
    bus.connect(board, Device::Ram);
    bus.connect(board, Device::Cartridge);
    bus.connect(board, Device::Ppu);
    bus.connect(board, Device::Dma);
    bus.connect(board, Device::Controller);
    bus
}

#[test]
fn address_range_is_half_open() {
    let range = AddressRange { start: 0x10, end: 0x20 };
    assert!(range.contains(0x10));
    assert!(range.contains(0x1f));
    assert!(!range.contains(0x20));
    assert!(!range.contains(0x0f));
}

#[test]
fn address_range_can_reach_the_top_of_memory() {
    let range = AddressRange { start: 0x8000, end: 0x10000 };
    assert!(range.contains(0xffff));
    assert!(!range.contains(0x7fff));
}

#[test]
fn ram_is_seen_every_2k() {
    let mut ram = Ram::new();
    ram.write(0x0001, 0xab);
    assert_eq!(ram.read(0x0001), 0xab);
    assert_eq!(ram.read(0x0801), 0xab);
    assert_eq!(ram.read(0x1001), 0xab);
    assert_eq!(ram.read(0x1801), 0xab);
    assert_eq!(ram.read(0x0002), 0x00);
    ram.write(0x1fff, 0x77);
    assert_eq!(ram.data[0x7ff], 0x77);
}

#[test]
fn new_bus_has_no_bindings() {
    let bus = Bus::new();
    assert_eq!(bus.connections.len(), 0);
    assert_eq!(bus.route(0x0000), None);
    let other = Bus::default();
    assert_eq!(other.connections.len(), 0);
}

#[test]
fn connect_records_the_declared_range() {
    let board = Board::new();
    let mut bus = Bus::new();
    bus.connect(&board, Device::Ppu);
    assert_eq!(bus.connections.len(), 1);
    assert_eq!(bus.connections[0].device, Device::Ppu);
    assert_eq!(bus.connections[0].address_range, AddressRange { start: 0x2000, end: 0x4000 });
    bus.connect(&board, Device::Cartridge);
    assert_eq!(bus.connections[1].address_range, AddressRange { start: 0x8000, end: 0x10000 });
}

#[test]
fn routing_follows_the_memory_map() {
    let board = Board::new();
    let bus = wired_bus(&board);
    assert_eq!(bus.route(0x0000), Some(Device::Ram));
    assert_eq!(bus.route(0x1fff), Some(Device::Ram));
    assert_eq!(bus.route(0x2000), Some(Device::Ppu));
    assert_eq!(bus.route(0x3fff), Some(Device::Ppu));
    assert_eq!(bus.route(0x4014), Some(Device::Dma));
    assert_eq!(bus.route(0x4016), Some(Device::Controller));
    assert_eq!(bus.route(0x8000), Some(Device::Cartridge));
    assert_eq!(bus.route(0xffff), Some(Device::Cartridge));
    assert_eq!(bus.route(0x4000), None);
    assert_eq!(bus.route(0x4015), None);
    assert_eq!(bus.route(0x4017), None);
    assert_eq!(bus.route(0x7fff), None);
}

#[test]
fn routing_takes_the_first_binding_that_matches() {
    let board = Board::new();
    let mut bus = Bus::new();
    bus.connect(&board, Device::Ppu);
    bus.connect(&board, Device::Ram);
    bus.connect(&board, Device::Ppu);
    assert_eq!(bus.route(0x2000), Some(Device::Ppu));
    assert_eq!(bus.route(0x0000), Some(Device::Ram));
}

#[test]
fn unmapped_read_gives_zero_and_unmapped_write_is_dropped() {
    let mut board = Board::new();
    let bus = wired_bus(&board);
    bus.write(&mut board, 0x5000, 0xaa);
    assert_eq!(bus.read(&mut board, 0x5000), 0x00);
    assert!(board.ram.data.iter().all(|b| *b == 0));
}

#[test]
fn bus_reads_back_what_it_wrote_to_ram() {
    let mut board = Board::new();
    let bus = wired_bus(&board);
    bus.write(&mut board, 0x0123, 0x5a);
    assert_eq!(bus.read(&mut board, 0x0123), 0x5a);
    assert_eq!(bus.read(&mut board, 0x0923), 0x5a);
    assert_eq!(board.ram.data[0x123], 0x5a);
}

#[test]
fn bus_write_to_dma_register_arms_a_copy() {
    let mut board = Board::new();
    let bus = wired_bus(&board);
    bus.write(&mut board, 0x4014, 0x02);
    assert_eq!(board.dma.page, 0x02);
    assert_eq!(board.dma.address, 0x00);
    assert!(board.dma.transfer);
    assert_eq!(bus.read(&mut board, 0x4014), 0x00);
}

#[test]
fn bus_reaches_the_joypad() {
    let mut board = Board::new();
    let bus = wired_bus(&board);
    board.controller.input = 0b1100_0000;
    bus.write(&mut board, 0x4016, 0x01);
    assert_eq!(bus.read(&mut board, 0x4016), 1);
    assert_eq!(bus.read(&mut board, 0x4016), 1);
    assert_eq!(bus.read(&mut board, 0x4016), 0);
    assert_eq!(board.controller.state, 0b0000_0111);
}

#[test]
fn write_only_picture_register_reads_as_zero_and_changes_nothing() {
    let mut board = Board::new();
    let bus = wired_bus(&board);
    bus.write(&mut board, 0x2000, 0xff);
    let latch = board.ppu.loopy_latch;
    assert_eq!(bus.read(&mut board, 0x2000), 0x00);
    assert_eq!(bus.read(&mut board, 0x2001), 0x00);
    assert_eq!(bus.read(&mut board, 0x2005), 0x00);
    assert_eq!(board.ppu.loopy_latch, latch);
    assert!(board.ppu.ctrl.generate_nmi);
}

#[test]
fn board_declares_each_device_range() {
    let board = Board::default();
    assert_eq!(board.address_range(Device::Ram), AddressRange { start: 0x0000, end: 0x2000 });
    assert_eq!(board.address_range(Device::Dma), AddressRange { start: 0x4014, end: 0x4015 });
    assert_eq!(
        board.address_range(Device::Controller),
        AddressRange { start: 0x4016, end: 0x4017 }
    );
}

#[test]
fn devices_claim_the_ranges_of_the_memory_map() {
    assert_eq!(Device::Ram.address_range(), AddressRange { start: 0x0000, end: 0x2000 });
    assert_eq!(Device::Ppu.address_range(), AddressRange { start: 0x2000, end: 0x4000 });
    assert_eq!(Device::Dma.address_range(), AddressRange { start: 0x4014, end: 0x4015 });
    assert_eq!(Device::Controller.address_range(), AddressRange { start: 0x4016, end: 0x4017 });
    assert_eq!(Device::Cartridge.address_range(), AddressRange { start: 0x8000, end: 0x10000 });
}

#[test]
fn bus_checks_its_bindings() {
    let board = Board::new();
    let mut bus = wired_bus(&board);
    assert!(bus.well_formed());
    assert!(Bus::new().well_formed());
    bus.connections[2].address_range.start = 0x2001;
    assert!(!bus.well_formed());
}
