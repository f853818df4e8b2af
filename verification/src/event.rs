//! The records that the chain emits for relayers and indexers: one event per
//! successful transition, each kind with a fixed list of attributes.

use vstd::prelude::*;
use vstd::string::StringExecFns;
use crate::ident::{optional_to_text, ChannelId, ClientId, ConnectionId, PortId};
use crate::text::{decimal, decimal_string, hex_encode, hex_lower, timestamp_string, timestamp_text};
use crate::types::{
    tendermint_client_type_text, ChannelEnd, ChannelEndView, ClientState, ConnectionCounterparty,
    ConnectionCounterpartyView, ConnectionEnd, Height, Packet, PacketView,
};

verus! {

/// A key with its value. `index` asks the indexer to index the attribute.
#[derive(Clone, Debug, PartialEq, Eq)]
pub struct EventAttribute {
    pub key: String,
    pub value: String,
    pub index: bool,
}

pub struct EventAttributeView {
    pub key: Seq<char>,
    pub value: Seq<char>,
    pub index: bool,
}

impl View for EventAttribute {
    type V = EventAttributeView;

    open spec fn view(&self) -> EventAttributeView {
        EventAttributeView { key: self.key@, value: self.value@, index: self.index }
    }
}

/// An event: its kind and its attributes in order.
#[derive(Clone, Debug, PartialEq, Eq)]
pub struct Event {
    pub kind: String,
    pub attributes: Vec<EventAttribute>,
}

pub struct EventView {
    pub kind: Seq<char>,
    pub attributes: Seq<EventAttributeView>,
}

impl View for Event {
    type V = EventView;

    open spec fn view(&self) -> EventView {
        EventView {
            kind: self.kind@,
            attributes: self.attributes@.map_values(|a: EventAttribute| a@),
        }
    }
}

/// An attribute that is to be indexed.
pub open spec fn indexed(key: Seq<char>, value: Seq<char>) -> EventAttributeView {
    EventAttributeView { key, value, index: true }
}

/// A client update as the protocol layer sees it: the height the header is
/// for, and the header in its protocol-buffer encoding.
#[derive(Clone, Debug, PartialEq, Eq)]
pub struct Header {
    pub height: Height,
    pub encoded: Vec<u8>,
}

pub open spec fn create_client_attributes(
    client_id: Seq<char>,
    client_state: ClientState,
) -> Seq<EventAttributeView> {
    seq![
        indexed("client_id"@, client_id),
        indexed("client_type"@, tendermint_client_type_text()),
        indexed("consensus_height"@, client_state.latest_height.text()),
    ]
}

pub open spec fn update_client_attributes(
    client_id: Seq<char>,
    height: Height,
    encoded: Seq<u8>,
) -> Seq<EventAttributeView> {
    seq![
        indexed("client_id"@, client_id),
        indexed("client_type"@, tendermint_client_type_text()),
        indexed("consensus_height"@, height.text()),
        indexed("header"@, hex_lower(encoded)),
    ]
}

/// The attributes of every connection handshake event. The counterparty's
/// connection identifier is empty text while it is unknown.
pub open spec fn connection_attributes(
    connection_id: Seq<char>,
    client_id: Seq<char>,
    counterparty: ConnectionCounterpartyView,
) -> Seq<EventAttributeView> {
    seq![
        indexed("connection_id"@, connection_id),
        indexed("client_id"@, client_id),
        indexed("counterparty_client_id"@, counterparty.client_id),
        indexed(
            "counterparty_connection_id"@,
            match counterparty.connection_id {
                Some(id) => id,
                None => Seq::empty(),
            },
        ),
    ]
}

/// The attributes of every channel handshake and channel closing event. The
/// counterparty's channel identifier is empty text while it is unknown.
pub open spec fn channel_attributes(
    port_id: Seq<char>,
    channel_id: Seq<char>,
    channel: ChannelEndView,
) -> Seq<EventAttributeView> {
    seq![
        indexed("port_id"@, port_id),
        indexed("channel_id"@, channel_id),
        indexed("counterparty_port_id"@, channel.counterparty.port_id),
        indexed(
            "counterparty_channel_id"@,
            match channel.counterparty.channel_id {
                Some(id) => id,
                None => Seq::empty(),
            },
        ),
        indexed("connection_id"@, channel.connection_id),
    ]
}

/// The attributes of the receive, acknowledge and timeout events.
pub open spec fn packet_attributes(packet: PacketView, channel: ChannelEndView) -> Seq<
    EventAttributeView,
> {
    seq![
        indexed("packet_data_hex"@, hex_lower(packet.data)),
        indexed("packet_timeout_height"@, packet.timeout_height_on_b.text()),
        indexed("packet_timeout_timestamp"@, timestamp_text(packet.timeout_timestamp_on_b)),
        indexed("packet_sequence"@, decimal(packet.sequence as nat)),
        indexed("packet_src_port"@, packet.port_on_a),
        indexed("packet_src_channel"@, packet.chan_on_a),
        indexed("packet_dst_port"@, packet.port_on_b),
        indexed("packet_dst_channel"@, packet.chan_on_b),
        indexed("packet_channel_ordering"@, channel.ordering.text()),
        indexed("packet_connection"@, channel.connection_id),
    ]
}

/// The attributes of the event for a written acknowledgement. Its keys
/// differ from those of the other packet events.
pub open spec fn write_acknowledgement_attributes(
    packet: PacketView,
    acknowledgement: Seq<u8>,
) -> Seq<EventAttributeView> {
    seq![
        indexed("packet_data"@, hex_lower(packet.data)),
        indexed("timeout_height"@, packet.timeout_height_on_b.text()),
        indexed("timeout_timestamp"@, timestamp_text(packet.timeout_timestamp_on_b)),
        indexed("sequence"@, decimal(packet.sequence as nat)),
        indexed("src_port"@, packet.port_on_a),
        indexed("src_channel"@, packet.chan_on_a),
        indexed("dst_port"@, packet.port_on_b),
        indexed("dst_channel"@, packet.chan_on_b),
        indexed("acknowledgement"@, hex_lower(acknowledgement)),
    ]
}

fn attribute(key: &str, value: String) -> (a: EventAttribute)
    ensures
        a@ == indexed(key@, value@),
{
    EventAttribute { key: String::from_str(key), value, index: true }
}

fn connection_event(
    kind: &str,
    connection_id: &ConnectionId,
    client_id: &ClientId,
    counterparty: &ConnectionCounterparty,
) -> (event: Event)
    ensures
        event@ == (EventView {
            kind: kind@,
            attributes: connection_attributes(connection_id@, client_id@, counterparty@),
        }),
{
    let mut attributes: Vec<EventAttribute> = Vec::new();
    attributes.push(attribute("connection_id", connection_id.to_text()));
    attributes.push(attribute("client_id", client_id.to_text()));
    attributes.push(attribute("counterparty_client_id", counterparty.client_id.to_text()));
    attributes.push(
        attribute("counterparty_connection_id", optional_to_text(&counterparty.connection_id)),
    );
    let event = Event { kind: String::from_str(kind), attributes };
    assert(event@.attributes =~= connection_attributes(
        connection_id@,
        client_id@,
        counterparty@,
    ));
    event
}

fn channel_event(kind: &str, port_id: &PortId, channel_id: &ChannelId, channel: &ChannelEnd) -> (event:
    Event)
    ensures
        event@ == (EventView {
            kind: kind@,
            attributes: channel_attributes(port_id@, channel_id@, channel@),
        }),
{
    let mut attributes: Vec<EventAttribute> = Vec::new();
    attributes.push(attribute("port_id", port_id.to_text()));
    attributes.push(attribute("channel_id", channel_id.to_text()));
    attributes.push(attribute("counterparty_port_id", channel.counterparty.port_id.to_text()));
    attributes.push(
        attribute("counterparty_channel_id", optional_to_text(&channel.counterparty.channel_id)),
    );
    attributes.push(attribute("connection_id", channel.connection_id.to_text()));
    let event = Event { kind: String::from_str(kind), attributes };
    assert(event@.attributes =~= channel_attributes(port_id@, channel_id@, channel@));
    event
}

fn packet_event(kind: &str, packet: &Packet, channel: &ChannelEnd) -> (event: Event)
    ensures
        event@ == (EventView { kind: kind@, attributes: packet_attributes(packet@, channel@) }),
{
    let mut attributes: Vec<EventAttribute> = Vec::new();
    attributes.push(attribute("packet_data_hex", hex_encode(packet.data.as_slice())));
    attributes.push(attribute("packet_timeout_height", packet.timeout_height_on_b.to_text()));
    attributes.push(
        attribute("packet_timeout_timestamp", timestamp_string(packet.timeout_timestamp_on_b)),
    );
    attributes.push(attribute("packet_sequence", decimal_string(packet.sequence)));
    attributes.push(attribute("packet_src_port", packet.port_on_a.to_text()));
    attributes.push(attribute("packet_src_channel", packet.chan_on_a.to_text()));
    attributes.push(attribute("packet_dst_port", packet.port_on_b.to_text()));
    attributes.push(attribute("packet_dst_channel", packet.chan_on_b.to_text()));
    attributes.push(attribute("packet_channel_ordering", channel.ordering.to_text()));
    attributes.push(attribute("packet_connection", channel.connection_id.to_text()));
    let event = Event { kind: String::from_str(kind), attributes };
    assert(event@.attributes =~= packet_attributes(packet@, channel@));
    event
}

/// The event for a newly created client.
pub fn create_client(client_id: ClientId, client_state: ClientState) -> (event: Event)
    ensures
        event@ == (EventView {
            kind: "create_client"@,
            attributes: create_client_attributes(client_id@, client_state),
        }),
{
    let mut attributes: Vec<EventAttribute> = Vec::new();
    attributes.push(attribute("client_id", client_id.to_text()));
    attributes.push(attribute("client_type", String::from_str("07-tendermint")));
    attributes.push(attribute("consensus_height", client_state.latest_height.to_text()));
    let event = Event { kind: String::from_str("create_client"), attributes };
    assert(event@.attributes =~= create_client_attributes(client_id@, client_state));
    event
}

/// The event for a client that was brought to a new height. The header is
/// given in hexadecimal.
pub fn update_client(client_id: ClientId, header: Header) -> (event: Event)
    ensures
        event@ == (EventView {
            kind: "update_client"@,
            attributes: update_client_attributes(client_id@, header.height, header.encoded@),
        }),
{
    let mut attributes: Vec<EventAttribute> = Vec::new();
    attributes.push(attribute("client_id", client_id.to_text()));
    attributes.push(attribute("client_type", String::from_str("07-tendermint")));
    attributes.push(attribute("consensus_height", header.height.to_text()));
    attributes.push(attribute("header", hex_encode(header.encoded.as_slice())));
    let event = Event { kind: String::from_str("update_client"), attributes };
    assert(event@.attributes =~= update_client_attributes(
        client_id@,
        header.height,
        header.encoded@,
    ));
    event
}

pub fn connection_open_init(
    connection_id: &ConnectionId,
    client_id: &ClientId,
    counterparty: &ConnectionCounterparty,
) -> (event: Event)
    ensures
        event@ == (EventView {
            kind: "connection_open_init"@,
            attributes: connection_attributes(connection_id@, client_id@, counterparty@),
        }),
{
    connection_event("connection_open_init", connection_id, client_id, counterparty)
}

pub fn connection_open_try(
    connection_id: &ConnectionId,
    client_id: &ClientId,
    counterparty: &ConnectionCounterparty,
) -> (event: Event)
    ensures
        event@ == (EventView {
            kind: "connection_open_try"@,
            attributes: connection_attributes(connection_id@, client_id@, counterparty@),
        }),
{
    connection_event("connection_open_try", connection_id, client_id, counterparty)
}

pub fn connection_open_ack(connection_id: &ConnectionId, connection_end: &ConnectionEnd) -> (event:
    Event)
    ensures
        event@ == (EventView {
            kind: "connection_open_ack"@,
            attributes: connection_attributes(
                connection_id@,
                connection_end@.client_id,
                connection_end@.counterparty,
            ),
        }),
{
    connection_event(
        "connection_open_ack",
        connection_id,
        &connection_end.client_id,
        &connection_end.counterparty,
    )
}

pub fn connection_open_confirm(
    connection_id: &ConnectionId,
    connection_end: &ConnectionEnd,
) -> (event: Event)
    ensures
        event@ == (EventView {
            kind: "connection_open_confirm"@,
            attributes: connection_attributes(
                connection_id@,
                connection_end@.client_id,
                connection_end@.counterparty,
            ),
        }),
{
    connection_event(
        "connection_open_confirm",
        connection_id,
        &connection_end.client_id,
        &connection_end.counterparty,
    )
}

pub fn channel_open_init(port_id: &PortId, channel_id: &ChannelId, channel: &ChannelEnd) -> (event:
    Event)
    ensures
        event@ == (EventView {
            kind: "channel_open_init"@,
            attributes: channel_attributes(port_id@, channel_id@, channel@),
        }),
{
    channel_event("channel_open_init", port_id, channel_id, channel)
}

pub fn channel_open_try(port_id: &PortId, channel_id: &ChannelId, channel: &ChannelEnd) -> (event:
    Event)
    ensures
        event@ == (EventView {
            kind: "channel_open_try"@,
            attributes: channel_attributes(port_id@, channel_id@, channel@),
        }),
{
    channel_event("channel_open_try", port_id, channel_id, channel)
}

pub fn channel_open_ack(port_id: &PortId, channel_id: &ChannelId, channel: &ChannelEnd) -> (event:
    Event)
    ensures
        event@ == (EventView {
            kind: "channel_open_ack"@,
            attributes: channel_attributes(port_id@, channel_id@, channel@),
        }),
{
    channel_event("channel_open_ack", port_id, channel_id, channel)
}

pub fn channel_open_confirm(
    port_id: &PortId,
    channel_id: &ChannelId,
    channel: &ChannelEnd,
) -> (event: Event)
    ensures
        event@ == (EventView {
            kind: "channel_open_confirm"@,
            attributes: channel_attributes(port_id@, channel_id@, channel@),
        }),
{
    channel_event("channel_open_confirm", port_id, channel_id, channel)
}

pub fn channel_close_init(port_id: &PortId, channel_id: &ChannelId, channel: &ChannelEnd) -> (event:
    Event)
    ensures
        event@ == (EventView {
            kind: "channel_close_init"@,
            attributes: channel_attributes(port_id@, channel_id@, channel@),
        }),
{
    channel_event("channel_close_init", port_id, channel_id, channel)
}

pub fn channel_close_confirm(
    port_id: &PortId,
    channel_id: &ChannelId,
    channel: &ChannelEnd,
) -> (event: Event)
    ensures
        event@ == (EventView {
            kind: "channel_close_confirm"@,
            attributes: channel_attributes(port_id@, channel_id@, channel@),
        }),
{
    channel_event("channel_close_confirm", port_id, channel_id, channel)
}

/// The event for a received packet. Its kind is `recv_packet`.
pub fn receive_packet(packet: &Packet, channel: &ChannelEnd) -> (event: Event)
    ensures
        event@ == (EventView {
            kind: "recv_packet"@,
            attributes: packet_attributes(packet@, channel@),
        }),
{
    packet_event("recv_packet", packet, channel)
}

pub fn acknowledge_packet(packet: &Packet, channel: &ChannelEnd) -> (event: Event)
    ensures
        event@ == (EventView {
            kind: "acknowledge_packet"@,
            attributes: packet_attributes(packet@, channel@),
        }),
{
    packet_event("acknowledge_packet", packet, channel)
}

pub fn write_acknowledgement(packet: &Packet, ack_bytes: &[u8]) -> (event: Event)
    ensures
        event@ == (EventView {
            kind: "write_acknowledgement"@,
            attributes: write_acknowledgement_attributes(packet@, ack_bytes@),
        }),
{
    let mut attributes: Vec<EventAttribute> = Vec::new();
    attributes.push(attribute("packet_data", hex_encode(packet.data.as_slice())));
    attributes.push(attribute("timeout_height", packet.timeout_height_on_b.to_text()));
    attributes.push(attribute("timeout_timestamp", timestamp_string(packet.timeout_timestamp_on_b)));
    attributes.push(attribute("sequence", decimal_string(packet.sequence)));
    attributes.push(attribute("src_port", packet.port_on_a.to_text()));
    attributes.push(attribute("src_channel", packet.chan_on_a.to_text()));
    attributes.push(attribute("dst_port", packet.port_on_b.to_text()));
    attributes.push(attribute("dst_channel", packet.chan_on_b.to_text()));
    attributes.push(attribute("acknowledgement", hex_encode(ack_bytes)));
    let event = Event { kind: String::from_str("write_acknowledgement"), attributes };
    assert(event@.attributes =~= write_acknowledgement_attributes(packet@, ack_bytes@));
    event
}

pub fn timeout_packet(packet: &Packet, channel: &ChannelEnd) -> (event: Event)
    ensures
        event@ == (EventView {
            kind: "timeout_packet"@,
            attributes: packet_attributes(packet@, channel@),
        }),
{
    packet_event("timeout_packet", packet, channel)
}

} // verus!
