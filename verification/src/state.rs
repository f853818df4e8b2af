//! The committed state of the protocol layer.

use vstd::prelude::*;
use crate::ident::{ChannelId, ClientId, ConnectionId, Identifier, PortId};
use crate::table::{Key, Replicate, Table};
use crate::types::{ChannelEnd, ChannelEndView, ClientState, ConnectionEnd, ConnectionEndView, Height};

verus! {

/// Names a channel end: its port, then its channel identifier.
pub type ChannelKey = (PortId, ChannelId);

/// Names a packet of a channel end: port, channel identifier, sequence
/// number.
pub type PacketKey = (PortId, ChannelId, u64);

pub type ChannelKeyView = (Seq<char>, Seq<char>);

pub type PacketKeyView = (Seq<char>, Seq<char>, u64);

impl Replicate for Identifier {
    fn replicate(&self) -> (copy: Self) {
        self.duplicate()
    }
}

impl Key for Identifier {
    fn matches(&self, other: &Self) -> (equal: bool) {
        self.same(other)
    }
}

impl Replicate for (PortId, ChannelId) {
    fn replicate(&self) -> (copy: Self) {
        (self.0.duplicate(), self.1.duplicate())
    }
}

impl Key for (PortId, ChannelId) {
    fn matches(&self, other: &Self) -> (equal: bool) {
        self.0.same(&other.0) && self.1.same(&other.1)
    }
}

impl Replicate for (PortId, ChannelId, u64) {
    fn replicate(&self) -> (copy: Self) {
        (self.0.duplicate(), self.1.duplicate(), self.2)
    }
}

impl Key for (PortId, ChannelId, u64) {
    fn matches(&self, other: &Self) -> (equal: bool) {
        self.0.same(&other.0) && self.1.same(&other.1) && self.2 == other.2
    }
}

impl View for ClientState {
    type V = ClientState;

    open spec fn view(&self) -> ClientState {
        *self
    }
}

impl Replicate for ClientState {
    fn replicate(&self) -> (copy: Self) {
        *self
    }
}

impl Replicate for ConnectionEnd {
    fn replicate(&self) -> (copy: Self) {
        self.duplicate()
    }
}

impl Replicate for ChannelEnd {
    fn replicate(&self) -> (copy: Self) {
        self.duplicate()
    }
}

impl Replicate for u64 {
    fn replicate(&self) -> (copy: Self) {
        *self
    }
}

impl Replicate for () {
    fn replicate(&self) -> (copy: Self) {
        ()
    }
}

impl Replicate for Vec<u8> {
    fn replicate(&self) -> (copy: Self) {
        self.clone()
    }
}

/// Everything the protocol layer has committed: the host's own height and
/// time, its light clients, its connection and channel ends, and what it
/// keeps of packets. Checks read it; only execution changes it.
pub struct ChainState {
    /// The height of the block being executed.
    pub host_height: Height,
    /// The time of the block being executed, in nanoseconds since the Unix
    /// epoch.
    pub host_timestamp: u64,
    pub clients: Table<ClientId, ClientState>,
    pub connections: Table<ConnectionId, ConnectionEnd>,
    pub channels: Table<ChannelKey, ChannelEnd>,
    /// For each channel end, the sequence number of the next packet sent.
    pub next_sequence_send: Table<ChannelKey, u64>,
    /// For each packet sent and neither acknowledged nor timed out, the
    /// commitment to it.
    pub commitments: Table<PacketKey, Vec<u8>>,
    /// The packets received.
    pub receipts: Table<PacketKey, ()>,
    /// For each packet received, the acknowledgement written for it.
    pub acknowledgements: Table<PacketKey, Vec<u8>>,
}

pub struct ChainStateView {
    pub host_height: Height,
    pub host_timestamp: u64,
    pub clients: Map<Seq<char>, ClientState>,
    pub connections: Map<Seq<char>, ConnectionEndView>,
    pub channels: Map<ChannelKeyView, ChannelEndView>,
    pub next_sequence_send: Map<ChannelKeyView, u64>,
    pub commitments: Map<PacketKeyView, Seq<u8>>,
    pub receipts: Set<PacketKeyView>,
    pub acknowledgements: Map<PacketKeyView, Seq<u8>>,
}

impl View for ChainState {
    type V = ChainStateView;

    open spec fn view(&self) -> ChainStateView {
        ChainStateView {
            host_height: self.host_height,
            host_timestamp: self.host_timestamp,
            clients: self.clients@,
            connections: self.connections@,
            channels: self.channels@,
            next_sequence_send: self.next_sequence_send@,
            commitments: self.commitments@,
            receipts: self.receipts@.dom(),
            acknowledgements: self.acknowledgements@,
        }
    }
}

impl ChainStateView {
    /// The state in which nothing has happened yet.
    pub open spec fn empty() -> ChainStateView {
        ChainStateView {
            host_height: Height { revision_number: 0, revision_height: 0 },
            host_timestamp: 0,
            clients: Map::empty(),
            connections: Map::empty(),
            channels: Map::empty(),
            next_sequence_send: Map::empty(),
            commitments: Map::empty(),
            receipts: Set::empty(),
            acknowledgements: Map::empty(),
        }
    }
}

impl ChainState {
    pub fn new() -> (state: ChainState)
        ensures
            state@ == ChainStateView::empty(),
    {
        let state = ChainState {
            host_height: Height::zero(),
            host_timestamp: 0,
            clients: Table::new(),
            connections: Table::new(),
            channels: Table::new(),
            next_sequence_send: Table::new(),
            commitments: Table::new(),
            receipts: Table::new(),
            acknowledgements: Table::new(),
        };
        assert(state@.receipts =~= Set::<PacketKeyView>::empty());
        state
    }

    /// A copy of the state, to work on while this one stays as the
    /// snapshot.
    pub fn duplicate(&self) -> (copy: ChainState)
        ensures
            copy@ == self@,
    {
        ChainState {
            host_height: self.host_height,
            host_timestamp: self.host_timestamp,
            clients: self.clients.duplicate(),
            connections: self.connections.duplicate(),
            channels: self.channels.duplicate(),
            next_sequence_send: self.next_sequence_send.duplicate(),
            commitments: self.commitments.duplicate(),
            receipts: self.receipts.duplicate(),
            acknowledgements: self.acknowledgements.duplicate(),
        }
    }

    /// Sets the height and time of the block about to be executed.
    pub fn begin_block(&mut self, height: Height, timestamp: u64)
        ensures
            final(self)@ == (ChainStateView {
                host_height: height,
                host_timestamp: timestamp,
                ..old(self)@
            }),
    {
        self.host_height = height;
        self.host_timestamp = timestamp;
    }
}

} // verus!
