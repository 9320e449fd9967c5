//! The sprite DMA controller: copies one page of CPU memory into the
//! picture unit's object memory while the CPU stands still.

use vstd::prelude::*;
use crate::board::{Board, BoardView, Device};
use crate::bus::{Addressable, AddressRange, Bus};

verus! {

#[derive(Clone, Copy, PartialEq, Eq, Structural, Debug)]
pub struct DmaDevice {
    /// High byte of the addresses being copied from.
    pub page: u8,
    /// Low byte of the next address, and the place in object memory.
    pub address: u8,
    /// The byte read and not yet written.
    pub data: u8,
    /// Still waiting for the cycle on which the copy may start.
    pub flag: bool,
    /// A copy is under way.
    pub transfer: bool,
}

impl DmaDevice {
    /// The controller at rest.
    pub open spec fn idle() -> DmaDevice {
        DmaDevice { page: 0, address: 0, data: 0, flag: true, transfer: false }
    }

    pub fn new() -> (dma: DmaDevice)
        ensures
            dma == Self::idle(),
    {
        DmaDevice { page: 0, address: 0, data: 0, flag: true, transfer: false }
    }

    pub fn reset(&mut self)
        ensures
            *final(self) == Self::idle(),
    {
        *self = Self::new();
    }

    /// The address in CPU memory of the byte to copy next.
    pub open spec fn spec_source(self) -> u16 {
        (self.page * 256 + self.address) as u16
    }

    /// One tick of a copy under way, on an odd or an even cycle. The
    /// controller first waits for an odd cycle. Then every even cycle
    /// reads a byte from the page, and every odd cycle writes it to object
    /// memory and moves on; after the last byte of the page the copy is
    /// over.
    #[verifier::opaque]
    pub open spec fn spec_clock(bus: Bus, board: BoardView, odd: bool) -> BoardView {
        let dma = board.dma;
        if dma.flag {
            if odd {
                BoardView { dma: DmaDevice { flag: false, ..dma }, ..board }
            } else {
                board
            }
        } else if !odd {
            let (data, board) = bus.spec_read(board, dma.spec_source());
            BoardView { dma: DmaDevice { data, ..board.dma }, ..board }
        } else {
            let address = dma.address.wrapping_add(1);
            BoardView {
                ppu: board.ppu.spec_write_oam(dma.address, dma.data),
                dma: if address == 0 {
                    DmaDevice { address, transfer: false, flag: true, ..dma }
                } else {
                    DmaDevice { address, ..dma }
                },
                ..board
            }
        }
    }

    /// Moves the copy that `board`'s controller has under way on by one
    /// tick of the clock, whose count is `clock`. Reads go over `bus`.
    pub fn clock(board: &mut Board, bus: &Bus, clock: u64)
        requires
            bus.wf(),
            old(board)@.wf(),
        ensures
            final(board)@ == Self::spec_clock(*bus, old(board)@, clock % 2 == 1),
            final(board)@.wf(),
            final(board)@.follows(old(board)@),
    {
        proof {
            reveal(DmaDevice::spec_clock);
        }
        let dma: DmaDevice = board.dma;
        if dma.flag {
            if clock % 2 == 1 {
                board.dma = DmaDevice { flag: false, ..dma };
            }
        } else if clock % 2 == 0 {
            let data: u8 = bus.read(board, (dma.page as u16) * 256 + (dma.address as u16));
            board.dma = DmaDevice { data, ..board.dma };
        } else {
            board.ppu.write_oam(dma.address, dma.data);
            let address: u8 = dma.address.wrapping_add(1);
            board.dma = if address == 0x00 {
                DmaDevice { address, transfer: false, flag: true, ..dma }
            } else {
                DmaDevice { address, ..dma }
            };
        }
    }
}

impl Addressable for DmaDevice {
    open spec fn spec_address_range(&self) -> AddressRange {
        AddressRange { start: 0x4014, end: 0x4015 }
    }

    /// The register reads as 0.
    open spec fn spec_read(self, address: u16) -> (u8, Self) {
        (0, self)
    }

    /// A write names the page and starts a copy from its first byte.
    open spec fn spec_write(self, address: u16, data: u8) -> Self {
        DmaDevice { page: data, address: 0, transfer: true, ..self }
    }

    fn address_range(&self) -> (range: AddressRange) {
        AddressRange { start: 0x4014, end: 0x4015 }
    }

    fn read(&mut self, address: u16) -> (data: u8) {
        0
    }

    fn write(&mut self, address: u16, data: u8) {
        self.page = data;
        self.address = 0x00;
        self.transfer = true;
    }
}

impl Default for DmaDevice {
    fn default() -> (dma: DmaDevice)
        ensures
            dma == Self::idle(),
    {
        Self::new()
    }
}

/// A whole copy, tick by tick.
impl DmaDevice {
    /// Whether a copy has just been asked for: the controller waits, and
    /// the next byte is the first of the page.
    pub open spec fn armed(self) -> bool {
        self.flag && self.transfer && self.address == 0
    }

    /// Whether tick `index` of a run, counted from 0, falls on an odd
    /// cycle, where the first tick does if `odd` holds.
    pub open spec fn odd_tick(odd: bool, index: int) -> bool {
        odd == (index % 2 == 0)
    }

    /// The board after `n` ticks of the controller on cycles that are odd
    /// and even in turn, the first of them odd if `odd` holds.
    pub open spec fn spec_run(bus: Bus, board: BoardView, odd: bool, n: nat) -> BoardView
        decreases n,
    {
        if n == 0 {
            board
        } else {
            Self::spec_clock(
                bus,
                Self::spec_run(bus, board, odd, (n - 1) as nat),
                Self::odd_tick(odd, n - 1),
            )
        }
    }

    /// The ticks that pass before the first byte is read: one if the copy
    /// starts on an odd cycle, two if it starts on an even one.
    pub open spec fn wait(odd: bool) -> nat {
        if odd {
            1
        } else {
            2
        }
    }

    /// The tick, counted from 0, on which byte `i` of the page is read.
    pub open spec fn read_tick(odd: bool, i: int) -> nat {
        (Self::wait(odd) + 2 * i) as nat
    }

    /// The address in CPU memory of byte `i` of page `page`.
    pub open spec fn spec_source_of(page: u8, i: u8) -> u16 {
        (page * 256 + i) as u16
    }

    /// What a copy that starts on `board` reads as byte `i` of its page:
    /// what the bus hands out at that byte's address on the tick of the
    /// read.
    pub open spec fn spec_byte_read(bus: Bus, board: BoardView, odd: bool, i: u8) -> u8 {
        bus.spec_read(
            Self::spec_run(bus, board, odd, Self::read_tick(odd, i as int)),
            Self::spec_source_of(board.dma.page, i),
        ).0
    }

    /// Whether every byte of page `page` is read from work memory.
    pub open spec fn reads_ram(bus: Bus, page: u8) -> bool {
        forall|i: u8| #[trigger] bus.spec_route(Self::spec_source_of(page, i)) == Some(Device::Ram)
    }

    /// A read on the bus leaves the controller and object memory as they
    /// are.
    pub proof fn lemma_read_keeps_copy(bus: Bus, board: BoardView, address: u16)
        ensures
            bus.spec_read(board, address).1.dma == board.dma,
            bus.spec_read(board, address).1.ppu.oam_memory == board.ppu.oam_memory,
    {
    }

    /// One byte of a copy: a tick on an even cycle reads it, the tick on
    /// the odd cycle after it writes it to object memory and moves on.
    pub proof fn lemma_pair(bus: Bus, before: BoardView)
        requires
            before.dma.transfer,
            !before.dma.flag,
        ensures
            ({
                let (data, read) = bus.spec_read(before, before.dma.spec_source());
                let now = Self::spec_clock(bus, Self::spec_clock(bus, before, false), true);
                let next = before.dma.address.wrapping_add(1);
                &&& now.ppu == read.ppu.spec_write_oam(before.dma.address, data)
                &&& read.ppu.oam_memory == before.ppu.oam_memory
                &&& now.dma.page == before.dma.page
                &&& now.dma.address == next
                &&& now.dma.transfer == (next != 0)
                &&& now.dma.flag == (next == 0)
                &&& Self::spec_clock(bus, before, false).dma.transfer
            }),
    {
        reveal(DmaDevice::spec_clock);
        Self::lemma_read_keeps_copy(bus, before, before.dma.spec_source());
    }

    /// After the wait nothing has changed but that the controller waits
    /// no longer.
    pub proof fn lemma_wait(bus: Bus, board: BoardView, odd: bool)
        requires
            board.dma.armed(),
        ensures
            Self::spec_run(bus, board, odd, Self::wait(odd)) == (BoardView {
                dma: DmaDevice { flag: false, ..board.dma },
                ..board
            }),
            Self::spec_run(bus, board, odd, 0) == board,
            !odd ==> Self::spec_run(bus, board, odd, 1) == board,
    {
        reveal(DmaDevice::spec_clock);
        let first = Self::spec_run(bus, board, odd, 1);
        assert(first == Self::spec_clock(bus, Self::spec_run(bus, board, odd, 0), odd));
        if !odd {
            assert(Self::spec_run(bus, board, odd, 2) == Self::spec_clock(bus, first, true));
        }
    }

    /// The state of a copy after the wait and `k` bytes: the controller
    /// points at byte `k`, each byte before it has gone to its place in
    /// object memory as it was read, and the rest of object memory is as
    /// it was.
    pub proof fn lemma_copied(bus: Bus, board: BoardView, odd: bool, k: nat)
        requires
            board.dma.armed(),
            k <= 256,
        ensures
            ({
                let now = Self::spec_run(bus, board, odd, Self::read_tick(odd, k as int));
                &&& now.dma.page == board.dma.page
                &&& k < 256 ==> now.dma.transfer && !now.dma.flag && now.dma.address == k
                &&& k == 256 ==> !now.dma.transfer && now.dma.flag && now.dma.address == 0
                &&& forall|i: u8|
                    i < k ==> (#[trigger] now.ppu.spec_read_oam(i)) == Self::spec_byte_read(
                        bus,
                        board,
                        odd,
                        i,
                    )
                &&& forall|i: u8|
                    k <= i ==> (#[trigger] now.ppu.spec_read_oam(i)) == board.ppu.spec_read_oam(i)
            }),
        decreases k,
    {
        if k == 0 {
            Self::lemma_wait(bus, board, odd);
        } else {
            let j = (k - 1) as nat;
            Self::lemma_copied(bus, board, odd, j);
            let start = Self::read_tick(odd, j as int);
            let before = Self::spec_run(bus, board, odd, start);
            let read = Self::spec_run(bus, board, odd, start + 1);
            let now = Self::spec_run(bus, board, odd, start + 2);
            assert(!Self::odd_tick(odd, start as int));
            assert(Self::odd_tick(odd, start as int + 1));
            assert(read == Self::spec_clock(bus, before, false));
            assert(now == Self::spec_clock(bus, read, true));
            assert(Self::read_tick(odd, k as int) == start + 2);
            Self::lemma_pair(bus, before);
            let (data, after_read) = bus.spec_read(before, before.dma.spec_source());
            assert(data == Self::spec_byte_read(bus, board, odd, j as u8));
            assert forall|i: u8| (#[trigger] now.ppu.spec_read_oam(i)) == if i == j {
                data
            } else {
                before.ppu.spec_read_oam(i)
            } by {
                after_read.ppu.lemma_write_oam_changes_one_byte(j as u8, data, i);
            }
        }
    }

    /// A copy takes 513 ticks if it starts on an odd cycle and 514 if it
    /// starts on an even one, and is under way on every tick before. It
    /// moves 256 bytes: byte `i` of object memory is in the end what was
    /// read from byte `i` of the page, and the bytes are read in rising
    /// order, one every other tick.
    pub proof fn lemma_copy(bus: Bus, board: BoardView, odd: bool)
        requires
            board.dma.armed(),
        ensures
            ({
                let ticks: nat = if odd {
                    513
                } else {
                    514
                };
                let done = Self::spec_run(bus, board, odd, ticks);
                &&& !done.dma.transfer
                &&& done.dma.flag
                &&& forall|n: nat|
                    n < ticks ==> (#[trigger] Self::spec_run(bus, board, odd, n)).dma.transfer
                &&& forall|i: u8|
                    (#[trigger] done.ppu.spec_read_oam(i)) == Self::spec_byte_read(
                        bus,
                        board,
                        odd,
                        i,
                    )
            }),
    {
        Self::lemma_copied(bus, board, odd, 256);
        let ticks: nat = if odd {
            513
        } else {
            514
        };
        assert(Self::read_tick(odd, 256) == ticks);
        assert forall|n: nat| n < ticks implies (#[trigger] Self::spec_run(
            bus,
            board,
            odd,
            n,
        )).dma.transfer by {
            Self::lemma_under_way(bus, board, odd, n);
        }
    }

    /// On every tick before its last a copy is under way.
    pub proof fn lemma_under_way(bus: Bus, board: BoardView, odd: bool, n: nat)
        requires
            board.dma.armed(),
            n < Self::read_tick(odd, 256),
        ensures
            Self::spec_run(bus, board, odd, n).dma.transfer,
    {
        Self::lemma_wait(bus, board, odd);
        if n >= Self::wait(odd) {
            let k = ((n - Self::wait(odd)) / 2) as nat;
            Self::lemma_copied(bus, board, odd, k);
            let start = Self::read_tick(odd, k as int);
            if n != start {
                let before = Self::spec_run(bus, board, odd, start);
                assert(n == start + 1);
                assert(!Self::odd_tick(odd, start as int));
                assert(Self::spec_run(bus, board, odd, n) == Self::spec_clock(bus, before, false));
                Self::lemma_pair(bus, before);
            }
        }
    }

    /// Where the page lies in work memory, a copy moves what work memory
    /// holds: byte `i` of object memory is in the end byte `i` of the page,
    /// and work memory is as it was.
    pub proof fn lemma_copy_from_ram(bus: Bus, board: BoardView, odd: bool)
        requires
            board.dma.armed(),
            Self::reads_ram(bus, board.dma.page),
        ensures
            ({
                let done = Self::spec_run(bus, board, odd, Self::read_tick(odd, 256));
                &&& done.ram == board.ram
                &&& forall|i: u8|
                    (#[trigger] done.ppu.spec_read_oam(i)) == board.ram.data[(board.dma.page * 256
                        + i) % 0x800]
            }),
    {
        Self::lemma_copy(bus, board, odd);
        Self::lemma_copied(bus, board, odd, 256);
        let done = Self::spec_run(bus, board, odd, Self::read_tick(odd, 256));
        assert forall|n: nat| n <= Self::read_tick(odd, 256) implies (#[trigger] Self::spec_run(
            bus,
            board,
            odd,
            n,
        )).ram == board.ram by {
            Self::lemma_ram_kept(bus, board, odd, n);
        }
        assert forall|i: u8|
            (#[trigger] done.ppu.spec_read_oam(i)) == board.ram.data[(board.dma.page * 256 + i)
                % 0x800] by {
            let at = Self::spec_run(bus, board, odd, Self::read_tick(odd, i as int));
            assert(at.ram == board.ram);
            assert(bus.spec_route(Self::spec_source_of(board.dma.page, i)) == Some(Device::Ram));
        }
    }

    /// Where the page lies in work memory, no tick of a copy changes work
    /// memory.
    pub proof fn lemma_ram_kept(bus: Bus, board: BoardView, odd: bool, n: nat)
        requires
            board.dma.armed(),
            n <= Self::read_tick(odd, 256),
            Self::reads_ram(bus, board.dma.page),
        ensures
            Self::spec_run(bus, board, odd, n).ram == board.ram,
        decreases n,
    {
        Self::lemma_wait(bus, board, odd);
        if n > Self::wait(odd) {
            let m = (n - 1) as nat;
            Self::lemma_ram_kept(bus, board, odd, m);
            let before = Self::spec_run(bus, board, odd, m);
            let k = ((m - Self::wait(odd)) / 2) as nat;
            Self::lemma_copied(bus, board, odd, k);
            assert(bus.spec_route(Self::spec_source_of(board.dma.page, k as u8)) == Some(
                Device::Ram,
            ));
            assert(Self::spec_run(bus, board, odd, n) == Self::spec_clock(
                bus,
                before,
                Self::odd_tick(odd, m as int),
            ));
            if m == Self::read_tick(odd, k as int) {
                assert(!Self::odd_tick(odd, m as int));
                Self::lemma_tick_keeps_ram(bus, before, false);
            } else {
                let start = Self::spec_run(bus, board, odd, (m - 1) as nat);
                Self::lemma_ram_kept(bus, board, odd, (m - 1) as nat);
                assert(before == Self::spec_clock(bus, start, false));
                Self::lemma_tick_keeps_ram(bus, start, false);
                Self::lemma_tick_keeps_ram(bus, before, true);
            }
        }
    }

    /// A tick of the controller keeps work memory where the byte it reads
    /// comes from there, and where it reads none.
    pub proof fn lemma_tick_keeps_ram(bus: Bus, board: BoardView, odd: bool)
        requires
            odd || board.dma.flag || bus.spec_route(board.dma.spec_source()) == Some(Device::Ram),
        ensures
            Self::spec_clock(bus, board, odd).ram == board.ram,
            Self::spec_clock(bus, board, odd).dma.page == board.dma.page,
    {
        reveal(DmaDevice::spec_clock);
    }
}

} // verus!
