//! The CPU bus: address ranges, the capability of being addressed, and the
//! routing of each access to the first device bound to its address.

use vstd::prelude::*;
use crate::board::{Board, BoardView, Device};

verus! {

/// A half-open range of CPU addresses, `start <= a < end`. The end is wider
/// than an address so that a range can reach the top of the address space.
#[derive(Clone, Copy, PartialEq, Eq, Structural, Debug)]
pub struct AddressRange {
    pub start: u16,
    pub end: u32,
}

impl AddressRange {
    pub open spec fn spec_contains(self, address: u16) -> bool {
        self.start <= address && (address as int) < self.end
    }

    /// Whether `address` lies in the range.
    #[verifier::when_used_as_spec(spec_contains)]
    pub fn contains(self, address: u16) -> (inside: bool)
        ensures
            inside == self.spec_contains(address),
    {
        self.start <= address && (address as u32) < self.end
    }
}

/// A device that claims a range of CPU addresses and can be read and written
/// at any address inside it.
pub trait Addressable: Sized {
    /// The range the device claims.
    spec fn spec_address_range(&self) -> AddressRange;

    /// The byte a read at `address` returns and the device after it.
    spec fn spec_read(self, address: u16) -> (u8, Self);

    /// The device after `data` is written at `address`.
    spec fn spec_write(self, address: u16, data: u8) -> Self;

    fn address_range(&self) -> (range: AddressRange)
        ensures
            range == self.spec_address_range(),
    ;

    fn read(&mut self, address: u16) -> (data: u8)
        requires
            old(self).spec_address_range().spec_contains(address),
        ensures
            (data, *final(self)) == old(self).spec_read(address),
    ;

    fn write(&mut self, address: u16, data: u8)
        requires
            old(self).spec_address_range().spec_contains(address),
        ensures
            *final(self) == old(self).spec_write(address, data),
    ;
}

/// One binding of the bus: a device and the range it answers in.
#[derive(Clone, Copy, PartialEq, Eq, Structural, Debug)]
pub struct Connection {
    pub device: Device,
    pub address_range: AddressRange,
}

/// The list of bindings, in the order in which the devices were connected.
pub struct Bus {
    pub connections: Vec<Connection>,
}

/// The device of the first binding at or after place `from` whose range
/// holds `address`.
pub open spec fn route_from(connections: Seq<Connection>, address: u16, from: int) -> Option<
    Device,
>
    decreases connections.len() - from,
{
    if from < 0 || from >= connections.len() {
        None
    } else if connections[from].address_range.spec_contains(address) {
        Some(connections[from].device)
    } else {
        route_from(connections, address, from + 1)
    }
}

impl View for Bus {
    type V = Seq<Connection>;

    open spec fn view(&self) -> Seq<Connection> {
        self.connections@
    }
}

impl Bus {
    /// Every binding holds the range that its device claims.
    pub open spec fn wf(self) -> bool {
        forall|i: int|
            0 <= i < self@.len() ==> (#[trigger] self@[i]).address_range
                == self@[i].device.spec_address_range()
    }

    /// The device that an access at `address` goes to, if any.
    pub open spec fn spec_route(self, address: u16) -> Option<Device> {
        route_from(self@, address, 0)
    }

    /// A read at `address`: the byte and the board after it. An address
    /// that no device answers reads as 0.
    pub open spec fn spec_read(self, board: BoardView, address: u16) -> (u8, BoardView) {
        match self.spec_route(address) {
            Some(device) => board.spec_read(device, address),
            None => (0, board),
        }
    }

    /// The board after a write at `address`. A write that no device answers
    /// is dropped.
    pub open spec fn spec_write(self, board: BoardView, address: u16, data: u8) -> BoardView {
        match self.spec_route(address) {
            Some(device) => board.spec_write(device, address, data),
            None => board,
        }
    }

    /// Routing goes to the first binding that holds the address: a device
    /// is chosen exactly if some binding of it holds the address and none
    /// before that binding does.
    pub proof fn lemma_route_first_match(self, address: u16, from: int)
        requires
            0 <= from <= self@.len(),
        ensures
            match route_from(self@, address, from) {
                Some(device) => exists|i: int|
                    {
                        &&& from <= i < self@.len()
                        &&& #[trigger] self@[i].address_range.spec_contains(address)
                        &&& self@[i].device == device
                        &&& forall|j: int|
                            from <= j < i ==> !(#[trigger] self@[j]).address_range.spec_contains(
                                address,
                            )
                    },
                None => forall|i: int|
                    from <= i < self@.len() ==> !(#[trigger] self@[i]).address_range.spec_contains(
                        address,
                    ),
            },
        decreases self@.len() - from,
    {
        if from < self@.len() {
            if self@[from].address_range.spec_contains(address) {
            } else {
                self.lemma_route_first_match(address, from + 1);
                match route_from(self@, address, from + 1) {
                    Some(device) => {
                        let i = choose|i: int|
                            {
                                &&& from + 1 <= i < self@.len()
                                &&& #[trigger] self@[i].address_range.spec_contains(address)
                                &&& self@[i].device == device
                                &&& forall|j: int|
                                    from + 1 <= j < i ==> !(#[trigger] self@[j]).address_range.spec_contains(
                                    address)
                            };
                        assert forall|j: int| from <= j < i implies !(
                        #[trigger] self@[j]).address_range.spec_contains(address) by {
                            if j == from {
                            }
                        }
                    },
                    None => {},
                }
            }
        }
    }

    pub fn new() -> (bus: Bus)
        ensures
            bus@ == Seq::<Connection>::empty(),
            bus.wf(),
    {
        Bus { connections: Vec::new() }
    }

    /// Whether every binding holds the range that its device claims.
    pub fn well_formed(&self) -> (ok: bool)
        ensures
            ok == self.wf(),
    {
        let mut i: usize = 0;
        while i < self.connections.len()
            invariant
                i <= self@.len(),
                forall|k: int|
                    0 <= k < i ==> (#[trigger] self@[k]).address_range
                        == self@[k].device.spec_address_range(),
            decreases self@.len() - i,
        {
            let connection: Connection = self.connections[i];
            if connection.address_range != connection.device.address_range() {
                return false;
            }
            i += 1;
        }
        true
    }

    /// Binds `device` to the range it claims, after all bindings made so
    /// far.
    pub fn connect(&mut self, board: &Board, device: Device)
        requires
            old(self).wf(),
        ensures
            final(self)@ == old(self)@.push(
                Connection { device, address_range: device.spec_address_range() },
            ),
            final(self).wf(),
    {
        let address_range: AddressRange = board.address_range(device);
        self.connections.push(Connection { device, address_range });
    }

    /// The device that answers at `address`.
    pub fn route(&self, address: u16) -> (device: Option<Device>)
        ensures
            device == self.spec_route(address),
            self.wf() ==> match device {
                Some(device) => device.spec_address_range().spec_contains(address),
                None => true,
            },
    {
        let mut i: usize = 0;
        while i < self.connections.len()
            invariant
                i <= self@.len(),
                route_from(self@, address, 0) == route_from(self@, address, i as int),
            decreases self@.len() - i,
        {
            if self.connections[i].address_range.contains(address) {
                return Some(self.connections[i].device);
            }
            i += 1;
        }
        None
    }

    pub fn read(&self, board: &mut Board, address: u16) -> (data: u8)
        requires
            self.wf(),
            old(board)@.wf(),
        ensures
            (data, final(board)@) == self.spec_read(old(board)@, address),
            final(board)@.wf(),
            final(board)@.follows(old(board)@),
    {
        match self.route(address) {
            Some(device) => board.read(device, address),
            None => 0x00,
        }
    }

    pub fn write(&self, board: &mut Board, address: u16, data: u8)
        requires
            self.wf(),
            old(board)@.wf(),
        ensures
            final(board)@ == self.spec_write(old(board)@, address, data),
            final(board)@.wf(),
            final(board)@.follows(old(board)@),
    {
        match self.route(address) {
            Some(device) => board.write(device, address, data),
            None => {},
        }
    }
}

impl Default for Bus {
    fn default() -> (bus: Bus)
        ensures
            bus@ == Seq::<Connection>::empty(),
            bus.wf(),
    {
        Bus::new()
    }
}

} // verus!
