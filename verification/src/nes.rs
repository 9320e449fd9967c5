//! The console: the processor and the devices wired together, and the
//! master clock that drives them.

use vstd::prelude::*;
use crate::board::{Board, BoardView, Device};
use crate::bus::{Bus, Connection};
use crate::cartridge::{parse_image, CartridgeError, CartridgeView, Mirror};
use crate::controller::Controller;
use crate::cpu::{Cpu, Machine};
use crate::dma::DmaDevice;
use crate::ppu::Ppu;

verus! {

pub struct Nes {
    pub cpu: Cpu,
    pub board: Board,
    /// Ticks of the master clock.
    pub clock: u64,
    pub rom_loaded: bool,
}

/// The console as a value.
pub struct Console {
    pub machine: Machine,
    pub clock: u64,
    pub rom_loaded: bool,
}

impl View for Nes {
    type V = Console;

    open spec fn view(&self) -> Console {
        Console {
            machine: self.cpu.with(self.board@),
            clock: self.clock,
            rom_loaded: self.rom_loaded,
        }
    }
}

/// The bindings of the console's bus, in the order of their wiring.
pub open spec fn wiring() -> Seq<Connection> {
    seq![
        Connection { device: Device::Ram, address_range: Device::Ram.spec_address_range() },
        Connection {
            device: Device::Cartridge,
            address_range: Device::Cartridge.spec_address_range(),
        },
        Connection { device: Device::Ppu, address_range: Device::Ppu.spec_address_range() },
        Connection { device: Device::Dma, address_range: Device::Dma.spec_address_range() },
        Connection {
            device: Device::Controller,
            address_range: Device::Controller.spec_address_range(),
        },
    ]
}

/// On the console's bus every page below 0x20 lies in work memory, so
/// that a sprite copy from there moves what work memory holds.
pub proof fn lemma_wiring_reads_ram(bus: Bus, page: u8)
    requires
        bus@ == wiring(),
        page < 0x20,
    ensures
        bus.wf(),
        DmaDevice::reads_ram(bus, page),
{
    assert forall|i: u8| #[trigger]
        bus.spec_route(DmaDevice::spec_source_of(page, i)) == Some(Device::Ram) by {
        let address = DmaDevice::spec_source_of(page, i);
        assert(bus@[0].address_range.spec_contains(address));
        assert(crate::bus::route_from(bus@, address, 0) == Some(Device::Ram));
    }
}

impl Console {
    /// The bus and the board are well formed, and a loaded cartridge has
    /// set the mirroring.
    pub open spec fn wf(self) -> bool {
        &&& self.machine.wf()
        &&& self.rom_loaded ==> self.machine.board.cartridge.mirror != Mirror::Unset
    }

    pub open spec fn with_board(self, board: BoardView) -> Console {
        Console { machine: Machine { board, ..self.machine }, ..self }
    }

    /// The picture unit moves on by one dot.
    #[verifier::opaque]
    pub open spec fn tick_picture(self) -> Console {
        let board = self.machine.board;
        self.with_board(BoardView { ppu: board.ppu.spec_clock(board.cartridge), ..board })
    }

    /// On every third tick the processor moves on by one cycle, or, while
    /// a sprite copy is under way, the copy does in its place.
    #[verifier::opaque]
    pub open spec fn tick_processor(self) -> Console {
        if self.clock % 3 != 0 {
            self
        } else if self.machine.board.dma.transfer {
            self.with_board(
                DmaDevice::spec_clock(self.machine.bus, self.machine.board, self.clock % 2 == 1),
            )
        } else {
            Console { machine: self.machine.clock(), ..self }
        }
    }

    /// An interrupt that the picture unit has requested is handed to the
    /// processor.
    #[verifier::opaque]
    pub open spec fn deliver_nmi(self) -> Console {
        let board = self.machine.board;
        if board.ppu.nmi {
            Console {
                machine: Machine {
                    board: BoardView { ppu: Ppu { nmi: false, ..board.ppu }, ..board },
                    ..self.machine
                }.nmi(),
                ..self
            }
        } else {
            self
        }
    }

    /// One tick of the master clock.
    #[verifier::opaque]
    pub open spec fn spec_clock(self) -> Console {
        let console = self.tick_picture().tick_processor().deliver_nmi();
        Console { clock: console.clock.wrapping_add(1), ..console }
    }

    /// `n` ticks of the master clock.
    pub open spec fn spec_clocks(self, n: nat) -> Console
        decreases n,
    {
        if n == 0 {
            self
        } else {
            self.spec_clocks((n - 1) as nat).spec_clock()
        }
    }

    /// Whether `now` is the console after `ticks` ticks on none of which
    /// a finished frame waited to be taken.
    pub open spec fn ran_to(self, now: Console, ticks: nat) -> bool {
        &&& now == self.spec_clocks(ticks)
        &&& forall|k: nat| k < ticks ==> !(#[trigger] self.spec_clocks(k)).complete()
    }

    /// A run goes on by a tick from a console on which no finished frame
    /// waits.
    pub proof fn lemma_ran_on(self, now: Console, ticks: nat)
        requires
            self.ran_to(now, ticks),
            !now.complete(),
        ensures
            self.ran_to(now.spec_clock(), ticks + 1),
    {
        assert(self.spec_clocks(ticks + 1) == self.spec_clocks(ticks).spec_clock());
    }

    /// Whether a finished frame waits to be taken.
    pub open spec fn complete(self) -> bool {
        self.machine.board.ppu.screen.complete
    }

    /// The console after `cartridge` has been put in: the processor reset
    /// through the new cartridge's vector, the picture unit and the copy
    /// controller as switched on, and the master clock at 1.
    #[verifier::opaque]
    pub open spec fn spec_insert(self, cartridge: CartridgeView) -> Console {
        let machine = Machine {
            board: BoardView { cartridge, ..self.machine.board },
            ..self.machine
        }.reset();
        Console {
            machine: Machine {
                board: BoardView {
                    ppu: Ppu::power_on(),
                    dma: DmaDevice::idle(),
                    ..machine.board
                },
                ..machine
            },
            clock: 1,
            rom_loaded: true,
        }
    }
}

impl Nes {
    /// A console with an empty cartridge slot. The devices answer on the
    /// bus in the order work memory, cartridge, picture unit, copy
    /// controller, joypad.
    pub fn new() -> (nes: Nes)
        ensures
            nes@.wf(),
            nes.cpu.bus@ == wiring(),
            nes.cpu.regs == Cpu::zeroed(),
            nes.board.ppu == Ppu::power_on(),
            nes.board.dma == DmaDevice::idle(),
            nes.board.cartridge@ == crate::cartridge::Cartridge::empty(),
            nes.board.controller == (Controller { input: 0, state: 0 }),
            forall|i: int| 0 <= i < 2048 ==> nes.board.ram.data[i] == 0,
            nes.clock == 0,
            !nes.rom_loaded,
    {
        let board: Board = Board::new();
        let mut bus: Bus = Bus::new();
        bus.connect(&board, Device::Ram);
        bus.connect(&board, Device::Cartridge);
        bus.connect(&board, Device::Ppu);
        bus.connect(&board, Device::Dma);
        bus.connect(&board, Device::Controller);
        assert(bus@ =~= wiring());
        Nes { cpu: Cpu::new(bus), board, clock: 0, rom_loaded: false }
    }

    /// Whether the console is in a state that its own functions leave it
    /// in: the checks that they ask for before they run.
    pub fn well_formed(&self) -> (ok: bool)
        ensures
            ok == self@.wf(),
    {
        self.cpu.bus.well_formed() && self.board.ppu.well_formed() && (!self.rom_loaded
            || self.board.cartridge.mirror != Mirror::Unset)
    }

    /// Puts in the cartridge that the ROM image `rom` describes and resets
    /// the console. An image that is turned down changes nothing.
    pub fn insert_cartridge(&mut self, rom: &[u8]) -> (result: Result<(), CartridgeError>)
        requires
            old(self)@.wf(),
        ensures
            match parse_image(rom@) {
                Ok(cartridge) => result is Ok && final(self)@ == old(self)@.spec_insert(cartridge),
                Err(error) => result == Err::<(), CartridgeError>(error) && final(self)@ == old(
                    self,
                )@,
            },
            final(self)@.wf(),
    {
        proof {
            reveal(Console::spec_insert);
        }
        match self.board.cartridge.insert(rom) {
            Err(error) => Err(error),
            Ok(()) => {
                self.cpu.reset(&mut self.board);
                self.board.ppu.reset();
                self.board.dma.reset();
                self.clock = 1;
                self.rom_loaded = true;
                Ok(())
            },
        }
    }

    pub fn tick_picture(&mut self)
        requires
            old(self)@.wf(),
            old(self).rom_loaded,
        ensures
            final(self)@ == old(self)@.tick_picture(),
            final(self)@.wf(),
            final(self).rom_loaded,
            final(self).clock == old(self).clock,
            final(self).board.ppu.beam() == old(self).board.ppu.beam().next(
                old(self).board.ppu.mask.spec_rendering(),
            ),
    {
        proof {
            reveal(Console::tick_picture);
        }
        self.board.ppu.clock(&self.board.cartridge);
    }

    pub fn tick_processor(&mut self)
        requires
            old(self)@.wf(),
        ensures
            final(self)@ == old(self)@.tick_processor(),
            final(self)@.wf(),
            final(self).rom_loaded == old(self).rom_loaded,
            final(self).clock == old(self).clock,
            final(self).board.ppu.beam() == old(self).board.ppu.beam(),
    {
        proof {
            reveal(Console::tick_processor);
        }
        if self.clock % 3 == 0 {
            if self.board.dma.transfer {
                DmaDevice::clock(&mut self.board, &self.cpu.bus, self.clock);
            } else {
                self.cpu.clock(&mut self.board);
            }
        }
    }

    pub fn deliver_nmi(&mut self)
        requires
            old(self)@.wf(),
        ensures
            final(self)@ == old(self)@.deliver_nmi(),
            final(self)@.wf(),
            final(self).rom_loaded == old(self).rom_loaded,
            final(self).clock == old(self).clock,
            final(self).board.ppu.beam() == old(self).board.ppu.beam(),
    {
        proof {
            reveal(Console::deliver_nmi);
        }
        if self.board.ppu.nmi {
            self.board.ppu.nmi = false;
            self.cpu.nmi(&mut self.board);
        }
    }

    /// One tick of the master clock.
    pub fn clock(&mut self)
        requires
            old(self)@.wf(),
            old(self).rom_loaded,
        ensures
            final(self)@ == old(self)@.spec_clock(),
            final(self)@.wf(),
            final(self).rom_loaded,
            final(self).board.ppu.beam() == old(self).board.ppu.beam().next(
                old(self).board.ppu.mask.spec_rendering(),
            ),
    {
        proof {
            reveal(Console::spec_clock);
        }
        self.tick_picture();
        self.tick_processor();
        self.deliver_nmi();
        self.clock = self.clock.wrapping_add(1);
    }

    /// Runs the console until the picture unit has finished a frame: for
    /// as many ticks as it takes until a finished frame waits to be taken,
    /// which are no more than the dots left in the frame under way. With
    /// no cartridge loaded, or with a finished frame still waiting to be
    /// taken, nothing happens.
    pub fn update(&mut self)
        requires
            old(self)@.wf(),
        ensures
            final(self)@.wf(),
            !old(self).rom_loaded ==> final(self)@ == old(self)@,
            old(self).rom_loaded ==> final(self)@.complete() && exists|n: nat|
                #[trigger] old(self)@.ran_to(final(self)@, n) && n <= old(
                    self,
                ).board.ppu.beam().remaining(),
    {
        if !self.rom_loaded {
            return ;
        }
        let ghost start = self@;
        let ghost left = self.board.ppu.beam().remaining();
        let ghost mut ticks: nat = 0;
        while !self.board.ppu.screen.complete
            invariant
                self@.wf(),
                self.rom_loaded,
                start.ran_to(self@, ticks),
                ticks + self.board.ppu.beam().remaining() <= left,
            decreases self.board.ppu.beam().remaining(),
        {
            let ghost before = self@;
            self.clock();
            proof {
                start.lemma_ran_on(before, ticks);
                ticks = ticks + 1;
            }
        }
    }
}

impl Default for Nes {
    fn default() -> (nes: Nes)
        ensures
            nes@.wf(),
            nes.cpu.bus@ == wiring(),
            nes.cpu.regs == Cpu::zeroed(),
            nes.board.ppu == Ppu::power_on(),
            nes.board.dma == DmaDevice::idle(),
            nes.board.cartridge@ == crate::cartridge::Cartridge::empty(),
            nes.board.controller == (Controller { input: 0, state: 0 }),
            forall|i: int| 0 <= i < 2048 ==> nes.board.ram.data[i] == 0,
            nes.clock == 0,
            !nes.rom_loaded,
    {
        Nes::new()
    }
}

} // verus!
