//! The devices on the CPU bus, held together so that one access can reach
//! any of them.

use vstd::prelude::*;
use crate::bus::{Addressable, AddressRange};
use crate::cartridge::{Cartridge, CartridgeView};
use crate::controller::Controller;
use crate::dma::DmaDevice;
use crate::ppu::Ppu;
use crate::ram::Ram;

verus! {

/// The devices a bus binding can name.
#[derive(Clone, Copy, PartialEq, Eq, Structural, Debug)]
pub enum Device {
    Ram,
    Cartridge,
    Ppu,
    Dma,
    Controller,
}

pub struct Board {
    pub ram: Ram,
    pub cartridge: Cartridge,
    pub ppu: Ppu,
    pub dma: DmaDevice,
    pub controller: Controller,
}

/// The board as a value.
pub struct BoardView {
    pub ram: Ram,
    pub cartridge: CartridgeView,
    pub ppu: Ppu,
    pub dma: DmaDevice,
    pub controller: Controller,
}

impl View for Board {
    type V = BoardView;

    open spec fn view(&self) -> BoardView {
        BoardView {
            ram: self.ram,
            cartridge: self.cartridge@,
            ppu: self.ppu,
            dma: self.dma,
            controller: self.controller,
        }
    }
}

impl Device {
    /// The range of CPU addresses that the device claims.
    pub open spec fn spec_address_range(self) -> AddressRange {
        match self {
            Device::Ram => AddressRange { start: 0x0000, end: 0x2000 },
            Device::Cartridge => AddressRange { start: 0x8000, end: 0x10000 },
            Device::Ppu => AddressRange { start: 0x2000, end: 0x4000 },
            Device::Dma => AddressRange { start: 0x4014, end: 0x4015 },
            Device::Controller => AddressRange { start: 0x4016, end: 0x4017 },
        }
    }
}

impl Device {
    /// The range of CPU addresses that the device claims.
    pub fn address_range(self) -> (range: AddressRange)
        ensures
            range == self.spec_address_range(),
    {
        match self {
            Device::Ram => AddressRange { start: 0x0000, end: 0x2000 },
            Device::Cartridge => AddressRange { start: 0x8000, end: 0x10000 },
            Device::Ppu => AddressRange { start: 0x2000, end: 0x4000 },
            Device::Dma => AddressRange { start: 0x4014, end: 0x4015 },
            Device::Controller => AddressRange { start: 0x4016, end: 0x4017 },
        }
    }
}

impl BoardView {
    pub open spec fn wf(self) -> bool {
        self.ppu.wf()
    }

    /// What no access from the CPU changes: where the picture unit's beam
    /// is and what it has drawn, and how the cartridge is wired.
    pub open spec fn follows(self, before: BoardView) -> bool {
        &&& self.ppu.follows(before.ppu)
        &&& self.cartridge.mirror == before.cartridge.mirror
        &&& self.cartridge.valid == before.cartridge.valid
    }

    /// The byte that `device` hands out at `address`, and the board after
    /// the read. A register of the picture unit that cannot be read gives 0
    /// and changes nothing.
    pub open spec fn spec_read(self, device: Device, address: u16) -> (u8, BoardView) {
        match device {
            Device::Ram => (self.ram.spec_read(address).0, self),
            Device::Cartridge => (self.cartridge.spec_read(address), self),
            Device::Ppu => if self.ppu.spec_can_read(self.cartridge, address) {
                let (data, ppu) = self.ppu.spec_read(self.cartridge, address);
                (data, BoardView { ppu, ..self })
            } else {
                (0, self)
            },
            Device::Dma => (0, self),
            Device::Controller => {
                let (data, controller) = self.controller.spec_read(address);
                (data, BoardView { controller, ..self })
            },
        }
    }

    /// The board after `data` is written to `device` at `address`.
    pub open spec fn spec_write(self, device: Device, address: u16, data: u8) -> BoardView {
        match device {
            Device::Ram => BoardView { ram: self.ram.spec_write(address, data), ..self },
            Device::Cartridge => BoardView {
                cartridge: self.cartridge.spec_write(address, data),
                ..self
            },
            Device::Ppu => {
                let (ppu, cartridge) = self.ppu.spec_write(self.cartridge, address, data);
                BoardView { ppu, cartridge, ..self }
            },
            Device::Dma => BoardView { dma: self.dma.spec_write(address, data), ..self },
            Device::Controller => BoardView {
                controller: self.controller.spec_write(address, data),
                ..self
            },
        }
    }
}

impl Board {
    /// A board with no cartridge in its slot and every device as it is
    /// switched on.
    pub fn new() -> (board: Board)
        ensures
            board@.wf(),
            board.cartridge@ == Cartridge::empty(),
            board.ppu == Ppu::power_on(),
            board.dma == DmaDevice::idle(),
            board.controller == (Controller { input: 0, state: 0 }),
            forall|i: int| 0 <= i < 2048 ==> board.ram.data[i] == 0,
    {
        Board {
            ram: Ram::new(),
            cartridge: Cartridge::new(),
            ppu: Ppu::new(),
            dma: DmaDevice::new(),
            controller: Controller::new(),
        }
    }

    pub fn address_range(&self, device: Device) -> (range: AddressRange)
        ensures
            range == device.spec_address_range(),
    {
        match device {
            Device::Ram => self.ram.address_range(),
            Device::Cartridge => self.cartridge.address_range(),
            Device::Ppu => self.ppu.address_range(),
            Device::Dma => self.dma.address_range(),
            Device::Controller => self.controller.address_range(),
        }
    }

    pub fn read(&mut self, device: Device, address: u16) -> (data: u8)
        requires
            old(self)@.wf(),
            device.spec_address_range().spec_contains(address),
        ensures
            (data, final(self)@) == old(self)@.spec_read(device, address),
            final(self)@.wf(),
            final(self)@.follows(old(self)@),
    {
        match device {
            Device::Ram => self.ram.read(address),
            Device::Cartridge => self.cartridge.read(address),
            Device::Ppu => {
                if self.ppu.can_read(&self.cartridge, address) {
                    self.ppu.read(&self.cartridge, address)
                } else {
                    0x00
                }
            },
            Device::Dma => self.dma.read(address),
            Device::Controller => self.controller.read(address),
        }
    }

    pub fn write(&mut self, device: Device, address: u16, data: u8)
        requires
            old(self)@.wf(),
            device.spec_address_range().spec_contains(address),
        ensures
            final(self)@ == old(self)@.spec_write(device, address, data),
            final(self)@.wf(),
            final(self)@.follows(old(self)@),
    {
        match device {
            Device::Ram => self.ram.write(address, data),
            Device::Cartridge => self.cartridge.write(address, data),
            Device::Ppu => self.ppu.write(&mut self.cartridge, address, data),
            Device::Dma => self.dma.write(address, data),
            Device::Controller => self.controller.write(address, data),
        }
    }
}

impl Default for Board {
    fn default() -> (board: Board)
        ensures
            board@.wf(),
            board.cartridge@ == Cartridge::empty(),
            board.ppu == Ppu::power_on(),
            board.dma == DmaDevice::idle(),
            board.controller == (Controller { input: 0, state: 0 }),
            forall|i: int| 0 <= i < 2048 ==> board.ram.data[i] == 0,
    {
        Board::new()
    }
}

} // verus!
