//! The protocol entities: heights, clients, connection and channel ends,
//! packets.

use vstd::prelude::*;
use vstd::string::StringExecFns;
use crate::ident::{optional_text, duplicate_optional, ClientId, ConnectionId, ChannelId, PortId};
use crate::text::{decimal, decimal_string};

verus! {

/// A height on a chain: the revision of the chain, then the block height
/// within that revision. Heights are ordered by revision first.
#[derive(Clone, Copy, Debug, PartialEq, Eq, Structural)]
pub struct Height {
    pub revision_number: u64,
    pub revision_height: u64,
}

impl Height {
    pub open spec fn is_zero(self) -> bool {
        self.revision_number == 0 && self.revision_height == 0
    }

    /// Strictly earlier than `other`.
    pub open spec fn before(self, other: Height) -> bool {
        self.revision_number < other.revision_number || (self.revision_number
            == other.revision_number && self.revision_height < other.revision_height)
    }

    /// Not later than `other`.
    pub open spec fn at_most(self, other: Height) -> bool {
        self == other || self.before(other)
    }

    /// The revision number and the revision height in decimal, joined by a
    /// hyphen.
    pub open spec fn text(self) -> Seq<char> {
        decimal(self.revision_number as nat) + seq!['-'] + decimal(self.revision_height as nat)
    }

    pub fn new(revision_number: u64, revision_height: u64) -> (height: Height)
        ensures
            height.revision_number == revision_number,
            height.revision_height == revision_height,
    {
        Height { revision_number, revision_height }
    }

    /// The height that stands for "no height": a packet with this timeout
    /// height never times out by height.
    pub fn zero() -> (height: Height)
        ensures
            height.is_zero(),
    {
        Height { revision_number: 0, revision_height: 0 }
    }

    pub fn has_no_height(&self) -> (zero: bool)
        ensures
            zero == self.is_zero(),
    {
        self.revision_number == 0 && self.revision_height == 0
    }

    pub fn is_before(&self, other: &Height) -> (earlier: bool)
        ensures
            earlier == self.before(*other),
    {
        self.revision_number < other.revision_number || (self.revision_number
            == other.revision_number && self.revision_height < other.revision_height)
    }

    pub fn is_at_most(&self, other: &Height) -> (not_later: bool)
        ensures
            not_later == self.at_most(*other),
    {
        !other.is_before(self)
    }

    pub fn to_text(&self) -> (text: String)
        ensures
            text@ == self.text(),
    {
        let mut text = decimal_string(self.revision_number);
        proof {
            reveal_strlit("-");
        }
        text.append("-");
        let height = decimal_string(self.revision_height);
        text.append(height.as_str());
        assert(text@ =~= self.text());
        text
    }
}

/// The kind of light client. Only the Tendermint-style client is supported.
#[derive(Clone, Copy, Debug, PartialEq, Eq, Structural)]
pub enum ClientType {
    Tendermint,
}

/// The text that names the Tendermint client type in events.
pub open spec fn tendermint_client_type_text() -> Seq<char> {
    "07-tendermint"@
}

/// What the protocol layer tracks of a light client.
#[derive(Clone, Copy, Debug, PartialEq, Eq, Structural)]
pub struct ClientState {
    pub client_type: ClientType,
    /// The latest height of the counterparty that the client trusts.
    pub latest_height: Height,
}

/// Where a connection end stands in its handshake.
#[derive(Clone, Copy, Debug, PartialEq, Eq, Structural)]
pub enum ConnectionState {
    Init,
    TryOpen,
    Open,
}

/// Where a channel end stands in its life.
#[derive(Clone, Copy, Debug, PartialEq, Eq, Structural)]
pub enum ChannelState {
    Init,
    TryOpen,
    Open,
    Closed,
}

/// Whether a channel delivers packets in the order they were sent.
#[derive(Clone, Copy, Debug, PartialEq, Eq, Structural)]
pub enum Order {
    Unordered,
    Ordered,
}

impl Order {
    pub open spec fn text(self) -> Seq<char> {
        match self {
            Order::Unordered => "ORDER_UNORDERED"@,
            Order::Ordered => "ORDER_ORDERED"@,
        }
    }

    pub fn to_text(&self) -> (text: String)
        ensures
            text@ == self.text(),
    {
        match self {
            Order::Unordered => String::from_str("ORDER_UNORDERED"),
            Order::Ordered => String::from_str("ORDER_ORDERED"),
        }
    }
}

/// A connection version, by its number.
pub type Version = u64;

/// The one connection version this chain speaks.
pub const SUPPORTED_VERSION: Version = 1;

/// The other side of a connection, as this side knows it.
#[derive(Clone, Debug, PartialEq, Eq)]
pub struct ConnectionCounterparty {
    pub client_id: ClientId,
    /// Unset until the handshake has told this side the counterparty's
    /// identifier.
    pub connection_id: Option<ConnectionId>,
}

pub struct ConnectionCounterpartyView {
    pub client_id: Seq<char>,
    pub connection_id: Option<Seq<char>>,
}

impl View for ConnectionCounterparty {
    type V = ConnectionCounterpartyView;

    open spec fn view(&self) -> ConnectionCounterpartyView {
        ConnectionCounterpartyView {
            client_id: self.client_id@,
            connection_id: optional_text(self.connection_id),
        }
    }
}

impl ConnectionCounterparty {
    pub fn duplicate(&self) -> (copy: ConnectionCounterparty)
        ensures
            copy@ == self@,
    {
        ConnectionCounterparty {
            client_id: self.client_id.duplicate(),
            connection_id: duplicate_optional(&self.connection_id),
        }
    }
}

/// One end of a connection.
#[derive(Clone, Debug, PartialEq, Eq)]
pub struct ConnectionEnd {
    pub state: ConnectionState,
    pub client_id: ClientId,
    pub counterparty: ConnectionCounterparty,
    /// The versions proposed while in `Init`; afterwards the one negotiated
    /// version.
    pub versions: Vec<Version>,
}

pub struct ConnectionEndView {
    pub state: ConnectionState,
    pub client_id: Seq<char>,
    pub counterparty: ConnectionCounterpartyView,
    pub versions: Seq<Version>,
}

impl View for ConnectionEnd {
    type V = ConnectionEndView;

    open spec fn view(&self) -> ConnectionEndView {
        ConnectionEndView {
            state: self.state,
            client_id: self.client_id@,
            counterparty: self.counterparty@,
            versions: self.versions@,
        }
    }
}

impl ConnectionEnd {
    pub fn duplicate(&self) -> (copy: ConnectionEnd)
        ensures
            copy@ == self@,
    {
        ConnectionEnd {
            state: self.state,
            client_id: self.client_id.duplicate(),
            counterparty: self.counterparty.duplicate(),
            versions: self.versions.clone(),
        }
    }
}

/// The other side of a channel, as this side knows it.
#[derive(Clone, Debug, PartialEq, Eq)]
pub struct ChannelCounterparty {
    pub port_id: PortId,
    /// Unset until the handshake has told this side the counterparty's
    /// identifier.
    pub channel_id: Option<ChannelId>,
}

pub struct ChannelCounterpartyView {
    pub port_id: Seq<char>,
    pub channel_id: Option<Seq<char>>,
}

impl View for ChannelCounterparty {
    type V = ChannelCounterpartyView;

    open spec fn view(&self) -> ChannelCounterpartyView {
        ChannelCounterpartyView {
            port_id: self.port_id@,
            channel_id: optional_text(self.channel_id),
        }
    }
}

impl ChannelCounterparty {
    pub fn duplicate(&self) -> (copy: ChannelCounterparty)
        ensures
            copy@ == self@,
    {
        ChannelCounterparty {
            port_id: self.port_id.duplicate(),
            channel_id: duplicate_optional(&self.channel_id),
        }
    }
}

/// One end of a channel. A channel runs over exactly one connection.
#[derive(Clone, Debug, PartialEq, Eq)]
pub struct ChannelEnd {
    pub state: ChannelState,
    pub ordering: Order,
    pub counterparty: ChannelCounterparty,
    pub connection_id: ConnectionId,
}

pub struct ChannelEndView {
    pub state: ChannelState,
    pub ordering: Order,
    pub counterparty: ChannelCounterpartyView,
    pub connection_id: Seq<char>,
}

impl View for ChannelEnd {
    type V = ChannelEndView;

    open spec fn view(&self) -> ChannelEndView {
        ChannelEndView {
            state: self.state,
            ordering: self.ordering,
            counterparty: self.counterparty@,
            connection_id: self.connection_id@,
        }
    }
}

impl ChannelEnd {
    pub fn duplicate(&self) -> (copy: ChannelEnd)
        ensures
            copy@ == self@,
    {
        ChannelEnd {
            state: self.state,
            ordering: self.ordering,
            counterparty: self.counterparty.duplicate(),
            connection_id: self.connection_id.duplicate(),
        }
    }
}

/// A packet on its way from chain A (the source) to chain B (the
/// destination).
#[derive(Clone, Debug, PartialEq, Eq)]
pub struct Packet {
    pub sequence: u64,
    pub port_on_a: PortId,
    pub chan_on_a: ChannelId,
    pub port_on_b: PortId,
    pub chan_on_b: ChannelId,
    pub data: Vec<u8>,
    /// The height on B from which the packet is no longer received; the zero
    /// height where there is no such height.
    pub timeout_height_on_b: Height,
    /// The time on B, in nanoseconds since the Unix epoch, from which the
    /// packet is no longer received; zero where there is no such time.
    pub timeout_timestamp_on_b: u64,
}

pub struct PacketView {
    pub sequence: u64,
    pub port_on_a: Seq<char>,
    pub chan_on_a: Seq<char>,
    pub port_on_b: Seq<char>,
    pub chan_on_b: Seq<char>,
    pub data: Seq<u8>,
    pub timeout_height_on_b: Height,
    pub timeout_timestamp_on_b: u64,
}

impl View for Packet {
    type V = PacketView;

    open spec fn view(&self) -> PacketView {
        PacketView {
            sequence: self.sequence,
            port_on_a: self.port_on_a@,
            chan_on_a: self.chan_on_a@,
            port_on_b: self.port_on_b@,
            chan_on_b: self.chan_on_b@,
            data: self.data@,
            timeout_height_on_b: self.timeout_height_on_b,
            timeout_timestamp_on_b: self.timeout_timestamp_on_b,
        }
    }
}

impl Packet {
    pub fn duplicate(&self) -> (copy: Packet)
        ensures
            copy@ == self@,
    {
        Packet {
            sequence: self.sequence,
            port_on_a: self.port_on_a.duplicate(),
            chan_on_a: self.chan_on_a.duplicate(),
            port_on_b: self.port_on_b.duplicate(),
            chan_on_b: self.chan_on_b.duplicate(),
            data: self.data.clone(),
            timeout_height_on_b: self.timeout_height_on_b,
            timeout_timestamp_on_b: self.timeout_timestamp_on_b,
        }
    }
}

} // verus!
