//! Packets: sending on the source chain, receiving on the destination
//! chain, and resolving on the source chain by acknowledgement or by
//! timeout.

use vstd::prelude::*;
use crate::action::Transaction;
use crate::channel::{
    check_collaborators_agree, collaborators_agree, connection_open, find_open_connection,
};
use crate::connection::{
    check_client_covers, check_proof_well_formed, client_covers, proof_well_formed, well_formed,
};
use crate::digest::{commit_packet, packet_commitment, same_bytes};
use crate::error::Error;
use crate::event::{
    acknowledge_packet, packet_attributes, receive_packet, timeout_packet, write_acknowledgement,
    write_acknowledgement_attributes, EventView,
};
use crate::handler::{
    ActionHandler, Claim, ClaimView, Evidence, Outcome, OutcomeView, ProofRequest, ProofRequestView,
};
use crate::ident::{valid_identifier, ChannelId, PortId};
use crate::router::{bound_application, hook, hook_call, lookup, Stage};
use crate::state::{ChainState, ChainStateView, PacketKeyView};
use crate::types::{
    ChannelCounterparty, ChannelCounterpartyView, ChannelEnd, ChannelEndView, ChannelState,
    ConnectionEnd, Height, Packet, PacketView,
};

verus! {

/// A packet has a sequence number, data, and four identifiers with
/// identifier syntax.
pub open spec fn packet_well_formed(packet: PacketView) -> bool {
    &&& packet.sequence != 0
    &&& packet.data.len() > 0
    &&& valid_identifier(packet.port_on_a)
    &&& valid_identifier(packet.chan_on_a)
    &&& valid_identifier(packet.port_on_b)
    &&& valid_identifier(packet.chan_on_b)
}

pub fn check_packet_well_formed(packet: &Packet) -> (ok: bool)
    ensures
        ok == packet_well_formed(packet@),
{
    packet.sequence != 0 && packet.data.len() > 0 && packet.port_on_a.is_valid()
        && packet.chan_on_a.is_valid() && packet.port_on_b.is_valid() && packet.chan_on_b.is_valid()
}

/// The key of a packet on the chain that sent it.
pub open spec fn source_key(packet: PacketView) -> PacketKeyView {
    (packet.port_on_a, packet.chan_on_a, packet.sequence)
}

/// The key of a packet on the chain that receives it.
pub open spec fn destination_key(packet: PacketView) -> PacketKeyView {
    (packet.port_on_b, packet.chan_on_b, packet.sequence)
}

/// The channel end that a packet step is for can carry packets: its port
/// is bound, and the end exists and is open.
pub open spec fn channel_carries(state: ChainStateView, port_id: Seq<char>, channel_id: Seq<char>) -> Result<
    (),
    Error,
> {
    if bound_application(port_id) is None {
        Err(Error::InvalidPort)
    } else if !state.channels.contains_key((port_id, channel_id)) {
        Err(Error::InvalidStateTransition)
    } else if state.channels[(port_id, channel_id)].state != ChannelState::Open {
        Err(Error::InvalidStateTransition)
    } else {
        Ok(())
    }
}

pub fn check_channel_carries(state: &ChainState, port_id: &PortId, channel_id: &ChannelId) -> (result:
    Result<(), Error>)
    ensures
        result == channel_carries(state@, port_id@, channel_id@),
{
    if lookup(port_id).is_none() {
        return Err(Error::InvalidPort);
    }
    let key = (port_id.duplicate(), channel_id.duplicate());
    match state.channels.get(&key) {
        None => Err(Error::InvalidStateTransition),
        Some(channel) => {
            if matches!(channel.state, ChannelState::Open) {
                Ok(())
            } else {
                Err(Error::InvalidStateTransition)
            }
        },
    }
}

/// What the state must hold of the channel end that a packet step is for:
/// the port is bound; the channel end exists and is open; its counterparty
/// is the other end that the packet names; its connection is open.
pub open spec fn route_admissible(
    state: ChainStateView,
    port_id: Seq<char>,
    channel_id: Seq<char>,
    counterparty_port_id: Seq<char>,
    counterparty_channel_id: Seq<char>,
) -> Result<(), Error> {
    if bound_application(port_id) is None {
        Err(Error::InvalidPort)
    } else if !state.channels.contains_key((port_id, channel_id)) {
        Err(Error::InvalidStateTransition)
    } else {
        let channel = state.channels[(port_id, channel_id)];
        if channel.state != ChannelState::Open {
            Err(Error::InvalidStateTransition)
        } else if channel.counterparty != (ChannelCounterpartyView {
            port_id: counterparty_port_id,
            channel_id: Some(counterparty_channel_id),
        }) {
            Err(Error::InvalidStateTransition)
        } else if !connection_open(state, channel.connection_id) {
            Err(Error::InvalidStateTransition)
        } else {
            Ok(())
        }
    }
}

pub fn check_route<'a>(
    state: &'a ChainState,
    port_id: &PortId,
    channel_id: &ChannelId,
    counterparty_port_id: &PortId,
    counterparty_channel_id: &ChannelId,
) -> (result: Result<(&'a ChannelEnd, &'a ConnectionEnd), Error>)
    ensures
        match result {
            Ok((channel, connection)) => {
                &&& route_admissible(
                    state@,
                    port_id@,
                    channel_id@,
                    counterparty_port_id@,
                    counterparty_channel_id@,
                ) is Ok
                &&& channel@ == state@.channels[(port_id@, channel_id@)]
                &&& connection@ == state@.connections[channel@.connection_id]
            },
            Err(error) => route_admissible(
                state@,
                port_id@,
                channel_id@,
                counterparty_port_id@,
                counterparty_channel_id@,
            ) == Err::<(), Error>(error),
        },
{
    if lookup(port_id).is_none() {
        return Err(Error::InvalidPort);
    }
    let key = (port_id.duplicate(), channel_id.duplicate());
    match state.channels.get(&key) {
        None => Err(Error::InvalidStateTransition),
        Some(channel) => {
            if !matches!(channel.state, ChannelState::Open) {
                return Err(Error::InvalidStateTransition);
            }
            let names_counterparty = channel.counterparty.port_id.same(counterparty_port_id)
                && match &channel.counterparty.channel_id {
                Some(id) => id.same(counterparty_channel_id),
                None => false,
            };
            if !names_counterparty {
                return Err(Error::InvalidStateTransition);
            }
            match find_open_connection(state, &channel.connection_id) {
                None => Err(Error::InvalidStateTransition),
                Some(connection) => Ok((channel, connection)),
            }
        },
    }
}

/// The packet can still be received at the host's height and time: where
/// it has a timeout height, the host is before it; where it has a timeout
/// timestamp, the host's time is before it.
pub open spec fn receivable_now(state: ChainStateView, packet: PacketView) -> bool {
    &&& packet.timeout_height_on_b.is_zero() || state.host_height.before(packet.timeout_height_on_b)
    &&& packet.timeout_timestamp_on_b == 0 || state.host_timestamp < packet.timeout_timestamp_on_b
}

/// The packet's timeout has been reached on the destination chain at the
/// height of the proof: the proof height is at or after the timeout height,
/// or the destination's time at that height is at or after the timeout
/// timestamp.
pub open spec fn timeout_reached(
    packet: PacketView,
    proof_height: Height,
    consensus_timestamp: u64,
) -> bool {
    ||| !packet.timeout_height_on_b.is_zero() && packet.timeout_height_on_b.at_most(proof_height)
    ||| packet.timeout_timestamp_on_b != 0 && packet.timeout_timestamp_on_b <= consensus_timestamp
}

/// The event of a packet step.
pub open spec fn packet_event_view(kind: Seq<char>, state: ChainStateView, key: PacketKeyView, packet: PacketView) -> EventView {
    EventView { kind, attributes: packet_attributes(packet, state.channels[(key.0, key.1)]) }
}

/// What the state must hold for a packet to be sent on a channel end.
pub open spec fn send_admissible(
    state: ChainStateView,
    port_id: Seq<char>,
    channel_id: Seq<char>,
    data: Seq<u8>,
    timeout_height: Height,
    timeout_timestamp: u64,
) -> Result<(), Error> {
    if data.len() == 0 || (timeout_height.is_zero() && timeout_timestamp == 0) {
        Err(Error::MalformedAction)
    } else if bound_application(port_id) is None {
        Err(Error::InvalidPort)
    } else if !state.channels.contains_key((port_id, channel_id)) {
        Err(Error::InvalidStateTransition)
    } else {
        let channel = state.channels[(port_id, channel_id)];
        if channel.state != ChannelState::Open || channel.counterparty.channel_id is None {
            Err(Error::InvalidStateTransition)
        } else if !connection_open(state, channel.connection_id) {
            Err(Error::InvalidStateTransition)
        } else if !state.next_sequence_send.contains_key((port_id, channel_id))
            || state.next_sequence_send[(port_id, channel_id)] == u64::MAX {
            Err(Error::InvalidStateTransition)
        } else {
            Ok(())
        }
    }
}

/// The packet that is sent: it takes the channel end's next sequence
/// number and names the channel end's counterparty as its destination.
pub open spec fn sent_packet(
    state: ChainStateView,
    port_id: Seq<char>,
    channel_id: Seq<char>,
    data: Seq<u8>,
    timeout_height: Height,
    timeout_timestamp: u64,
) -> PacketView {
    let channel = state.channels[(port_id, channel_id)];
    PacketView {
        sequence: state.next_sequence_send[(port_id, channel_id)],
        port_on_a: port_id,
        chan_on_a: channel_id,
        port_on_b: channel.counterparty.port_id,
        chan_on_b: channel.counterparty.channel_id->0,
        data,
        timeout_height_on_b: timeout_height,
        timeout_timestamp_on_b: timeout_timestamp,
    }
}

/// The state after a packet was sent: the commitment to it is recorded, and
/// the channel end's next sequence number is one more.
pub open spec fn after_send(state: ChainStateView, packet: PacketView) -> ChainStateView {
    ChainStateView {
        commitments: state.commitments.insert(source_key(packet), packet_commitment(packet)),
        next_sequence_send: state.next_sequence_send.insert(
            (packet.port_on_a, packet.chan_on_a),
            (packet.sequence + 1) as u64,
        ),
        ..state
    }
}

/// Sends a packet on an open channel end, for the application bound to its
/// port. The packet gets the next sequence number of the channel end, and
/// the chain commits to it. Where the packet cannot be sent, the state stays
/// as it was.
pub fn send_packet(
    state: &mut ChainState,
    port_id: &PortId,
    channel_id: &ChannelId,
    data: Vec<u8>,
    timeout_height: Height,
    timeout_timestamp: u64,
) -> (result: Result<Packet, Error>)
    ensures
        match result {
            Ok(packet) => {
                &&& send_admissible(
                    old(state)@,
                    port_id@,
                    channel_id@,
                    data@,
                    timeout_height,
                    timeout_timestamp,
                ) is Ok
                &&& packet@ == sent_packet(
                    old(state)@,
                    port_id@,
                    channel_id@,
                    data@,
                    timeout_height,
                    timeout_timestamp,
                )
                &&& final(state)@ == after_send(old(state)@, packet@)
            },
            Err(error) => {
                &&& send_admissible(
                    old(state)@,
                    port_id@,
                    channel_id@,
                    data@,
                    timeout_height,
                    timeout_timestamp,
                ) == Err::<(), Error>(error)
                &&& final(state)@ == old(state)@
            },
        },
{
    if data.len() == 0 || (timeout_height.has_no_height() && timeout_timestamp == 0) {
        return Err(Error::MalformedAction);
    }
    if lookup(port_id).is_none() {
        return Err(Error::InvalidPort);
    }
    let key = (port_id.duplicate(), channel_id.duplicate());
    let packet = match state.channels.get(&key) {
        None => {
            return Err(Error::InvalidStateTransition);
        },
        Some(channel) => {
            if !matches!(channel.state, ChannelState::Open) {
                return Err(Error::InvalidStateTransition);
            }
            let destination = match &channel.counterparty.channel_id {
                None => {
                    return Err(Error::InvalidStateTransition);
                },
                Some(id) => id.duplicate(),
            };
            if find_open_connection(state, &channel.connection_id).is_none() {
                return Err(Error::InvalidStateTransition);
            }
            let sequence = match state.next_sequence_send.get(&key) {
                None => {
                    return Err(Error::InvalidStateTransition);
                },
                Some(next) => *next,
            };
            if sequence == u64::MAX {
                return Err(Error::InvalidStateTransition);
            }
            Packet {
                sequence,
                port_on_a: port_id.duplicate(),
                chan_on_a: channel_id.duplicate(),
                port_on_b: channel.counterparty.port_id.duplicate(),
                chan_on_b: destination,
                data,
                timeout_height_on_b: timeout_height,
                timeout_timestamp_on_b: timeout_timestamp,
            }
        },
    };
    let commitment = commit_packet(&packet);
    state.commitments.insert(
        (port_id.duplicate(), channel_id.duplicate(), packet.sequence),
        commitment,
    );
    state.next_sequence_send.insert(key, packet.sequence + 1);
    Ok(packet)
}

/// Delivers a packet to the destination chain.
#[derive(Clone, Debug, PartialEq, Eq)]
pub struct MsgRecvPacket {
    pub packet: Packet,
    /// Proof that the source chain holds the commitment to the packet.
    pub proof: Vec<u8>,
    pub proof_height: Height,
}

impl MsgRecvPacket {
    /// What the state must hold for the step, the collaborators aside: the
    /// destination channel end carries packets; the packet was not received
    /// before; the route is as the packet says; the packet has not timed
    /// out; the connection's client covers the proof height. A packet
    /// received before is told before anything else about the packet.
    pub open spec fn admissible(&self, state: ChainStateView) -> Result<(), Error> {
        let packet = self.packet@;
        match channel_carries(state, packet.port_on_b, packet.chan_on_b) {
            Err(error) => Err(error),
            Ok(()) => {
                if state.receipts.contains(destination_key(packet)) {
                    Err(Error::DuplicateDelivery)
                } else {
                    match route_admissible(
                        state,
                        packet.port_on_b,
                        packet.chan_on_b,
                        packet.port_on_a,
                        packet.chan_on_a,
                    ) {
                        Err(error) => Err(error),
                        Ok(()) => {
                            if !receivable_now(state, packet) {
                                Err(Error::InvalidStateTransition)
                            } else {
                                client_covers(
                                    state,
                                    state.connections[state.channels[(
                                        packet.port_on_b,
                                        packet.chan_on_b,
                                    )].connection_id].client_id,
                                    self.proof_height,
                                )
                            }
                        },
                    }
                }
            },
        }
    }

    fn check_admissible(&self, state: &ChainState) -> (result: Result<(), Error>)
        ensures
            result == self.admissible(state@),
    {
        let packet = &self.packet;
        match check_channel_carries(state, &packet.port_on_b, &packet.chan_on_b) {
            Err(error) => {
                return Err(error);
            },
            Ok(()) => {},
        }
        let key = (packet.port_on_b.duplicate(), packet.chan_on_b.duplicate(), packet.sequence);
        if state.receipts.contains(&key) {
            return Err(Error::DuplicateDelivery);
        }
        match check_route(
            state,
            &packet.port_on_b,
            &packet.chan_on_b,
            &packet.port_on_a,
            &packet.chan_on_a,
        ) {
            Err(error) => Err(error),
            Ok((channel, connection)) => {
                let in_time = (packet.timeout_height_on_b.has_no_height()
                    || state.host_height.is_before(&packet.timeout_height_on_b)) && (
                packet.timeout_timestamp_on_b == 0 || state.host_timestamp
                    < packet.timeout_timestamp_on_b);
                if !in_time {
                    Err(Error::InvalidStateTransition)
                } else {
                    check_client_covers(state, &connection.client_id, &self.proof_height)
                }
            },
        }
    }
}

impl ActionHandler for MsgRecvPacket {
    open spec fn stateless_result(&self) -> Result<(), Error> {
        well_formed(
            packet_well_formed(self.packet@) && proof_well_formed(self.proof@, self.proof_height),
        )
    }

    open spec fn proof_request_of(&self, state: ChainStateView) -> Option<ProofRequestView> {
        if self.admissible(state) is Ok {
            let packet = self.packet@;
            Some(
                ProofRequestView {
                    client_id: state.connections[state.channels[(
                        packet.port_on_b,
                        packet.chan_on_b,
                    )].connection_id].client_id,
                    height: self.proof_height,
                    claim: ClaimView::PacketCommitment {
                        port_id: packet.port_on_a,
                        channel_id: packet.chan_on_a,
                        sequence: packet.sequence,
                        commitment: packet_commitment(packet),
                    },
                },
            )
        } else {
            None
        }
    }

    open spec fn stateful_result(&self, state: ChainStateView, evidence: Evidence) -> Result<
        (),
        Error,
    > {
        match self.admissible(state) {
            Err(error) => Err(error),
            Ok(()) => collaborators_agree(true, evidence),
        }
    }

    open spec fn applied(&self, state: ChainStateView, evidence: Evidence) -> ChainStateView {
        ChainStateView {
            receipts: state.receipts.insert(destination_key(self.packet@)),
            acknowledgements: state.acknowledgements.insert(
                destination_key(self.packet@),
                evidence.acknowledgement@,
            ),
            ..state
        }
    }

    open spec fn outcome_of(&self, state: ChainStateView, evidence: Evidence) -> OutcomeView {
        OutcomeView {
            events: seq![
                packet_event_view(
                    "recv_packet"@,
                    state,
                    destination_key(self.packet@),
                    self.packet@,
                ),
                EventView {
                    kind: "write_acknowledgement"@,
                    attributes: write_acknowledgement_attributes(
                        self.packet@,
                        evidence.acknowledgement@,
                    ),
                },
            ],
            callback: hook_call(self.packet@.port_on_b, Stage::ReceivePacket),
        }
    }

    fn check_stateless(&self, context: &Transaction) -> (result: Result<(), Error>) {
        if check_packet_well_formed(&self.packet) && check_proof_well_formed(
            &self.proof,
            &self.proof_height,
        ) {
            Ok(())
        } else {
            Err(Error::MalformedAction)
        }
    }

    fn proof_request(&self, state: &ChainState) -> (request: Option<ProofRequest>) {
        match self.check_admissible(state) {
            Err(_) => None,
            Ok(()) => {
                let packet = &self.packet;
                match check_route(
                    state,
                    &packet.port_on_b,
                    &packet.chan_on_b,
                    &packet.port_on_a,
                    &packet.chan_on_a,
                ) {
                    Err(_) => None,
                    Ok((channel, connection)) => Some(
                        ProofRequest {
                            client_id: connection.client_id.duplicate(),
                            height: self.proof_height,
                            claim: Claim::PacketCommitment {
                                port_id: packet.port_on_a.duplicate(),
                                channel_id: packet.chan_on_a.duplicate(),
                                sequence: packet.sequence,
                                commitment: commit_packet(packet),
                            },
                        },
                    ),
                }
            },
        }
    }

    fn check_stateful(&self, state: &ChainState, evidence: &Evidence) -> (result: Result<
        (),
        Error,
    >) {
        match self.check_admissible(state) {
            Err(error) => Err(error),
            Ok(()) => check_collaborators_agree(true, evidence),
        }
    }

    fn execute(&self, state: &mut ChainState, evidence: &Evidence) -> (result: Result<
        Outcome,
        Error,
    >) {
        match self.check_stateful(state, evidence) {
            Err(error) => {
                return Err(error);
            },
            Ok(()) => {},
        }
        let packet = &self.packet;
        let received = match check_route(
            state,
            &packet.port_on_b,
            &packet.chan_on_b,
            &packet.port_on_a,
            &packet.chan_on_a,
        ) {
            Err(error) => {
                return Err(error);
            },
            Ok((channel, connection)) => receive_packet(packet, channel),
        };
        let written = write_acknowledgement(packet, evidence.acknowledgement.as_slice());
        state.receipts.insert(
            (packet.port_on_b.duplicate(), packet.chan_on_b.duplicate(), packet.sequence),
            (),
        );
        state.acknowledgements.insert(
            (packet.port_on_b.duplicate(), packet.chan_on_b.duplicate(), packet.sequence),
            evidence.acknowledgement.clone(),
        );
        assert(state@.receipts =~= old(state)@.receipts.insert(destination_key(packet@)));
        Ok(Outcome::pair(received, written, hook(&packet.port_on_b, Stage::ReceivePacket)))
    }
}

/// What the state must hold for a packet to be resolved on the chain that
/// sent it, the collaborators aside: the source channel end carries packets;
/// the commitment is still there; the route is as the packet says; the
/// commitment is the commitment to this packet; the connection's client
/// covers the proof height. A commitment that is gone is told before
/// anything else about the packet.
pub open spec fn resolution_admissible(
    state: ChainStateView,
    packet: PacketView,
    proof_height: Height,
) -> Result<(), Error> {
    match channel_carries(state, packet.port_on_a, packet.chan_on_a) {
        Err(error) => Err(error),
        Ok(()) => {
            if !state.commitments.contains_key(source_key(packet)) {
                Err(Error::DuplicateDelivery)
            } else {
                match route_admissible(
                    state,
                    packet.port_on_a,
                    packet.chan_on_a,
                    packet.port_on_b,
                    packet.chan_on_b,
                ) {
                    Err(error) => Err(error),
                    Ok(()) => {
                        if state.commitments[source_key(packet)] != packet_commitment(packet) {
                            Err(Error::InvalidStateTransition)
                        } else {
                            client_covers(
                                state,
                                state.connections[state.channels[(
                                    packet.port_on_a,
                                    packet.chan_on_a,
                                )].connection_id].client_id,
                                proof_height,
                            )
                        }
                    },
                }
            }
        },
    }
}

pub fn check_resolution_admissible(state: &ChainState, packet: &Packet, proof_height: &Height) -> (result:
    Result<(), Error>)
    ensures
        result == resolution_admissible(state@, packet@, *proof_height),
{
    match check_channel_carries(state, &packet.port_on_a, &packet.chan_on_a) {
        Err(error) => {
            return Err(error);
        },
        Ok(()) => {},
    }
    let key = (packet.port_on_a.duplicate(), packet.chan_on_a.duplicate(), packet.sequence);
    match state.commitments.get(&key) {
        None => Err(Error::DuplicateDelivery),
        Some(commitment) => {
            match check_route(
                state,
                &packet.port_on_a,
                &packet.chan_on_a,
                &packet.port_on_b,
                &packet.chan_on_b,
            ) {
                Err(error) => Err(error),
                Ok((channel, connection)) => {
                    let expected = commit_packet(packet);
                    if !same_bytes(commitment, &expected) {
                        Err(Error::InvalidStateTransition)
                    } else {
                        check_client_covers(state, &connection.client_id, proof_height)
                    }
                },
            }
        },
    }
}

/// The state after a packet was resolved: its commitment is gone.
pub open spec fn resolved(state: ChainStateView, packet: PacketView) -> ChainStateView {
    ChainStateView { commitments: state.commitments.remove(source_key(packet)), ..state }
}

/// Tells the source chain that the destination chain has received a packet
/// and what it answered.
#[derive(Clone, Debug, PartialEq, Eq)]
pub struct MsgAcknowledgement {
    pub packet: Packet,
    pub acknowledgement: Vec<u8>,
    /// Proof that the destination chain holds the acknowledgement.
    pub proof: Vec<u8>,
    pub proof_height: Height,
}

impl ActionHandler for MsgAcknowledgement {
    open spec fn stateless_result(&self) -> Result<(), Error> {
        well_formed(
            packet_well_formed(self.packet@) && self.acknowledgement@.len() > 0
                && proof_well_formed(self.proof@, self.proof_height),
        )
    }

    open spec fn proof_request_of(&self, state: ChainStateView) -> Option<ProofRequestView> {
        if resolution_admissible(state, self.packet@, self.proof_height) is Ok {
            let packet = self.packet@;
            Some(
                ProofRequestView {
                    client_id: state.connections[state.channels[(
                        packet.port_on_a,
                        packet.chan_on_a,
                    )].connection_id].client_id,
                    height: self.proof_height,
                    claim: ClaimView::PacketAcknowledgement {
                        port_id: packet.port_on_b,
                        channel_id: packet.chan_on_b,
                        sequence: packet.sequence,
                        acknowledgement: self.acknowledgement@,
                    },
                },
            )
        } else {
            None
        }
    }

    open spec fn stateful_result(&self, state: ChainStateView, evidence: Evidence) -> Result<
        (),
        Error,
    > {
        match resolution_admissible(state, self.packet@, self.proof_height) {
            Err(error) => Err(error),
            Ok(()) => collaborators_agree(true, evidence),
        }
    }

    open spec fn applied(&self, state: ChainStateView, evidence: Evidence) -> ChainStateView {
        resolved(state, self.packet@)
    }

    open spec fn outcome_of(&self, state: ChainStateView, evidence: Evidence) -> OutcomeView {
        OutcomeView {
            events: seq![
                packet_event_view(
                    "acknowledge_packet"@,
                    state,
                    source_key(self.packet@),
                    self.packet@,
                ),
            ],
            callback: hook_call(self.packet@.port_on_a, Stage::AcknowledgePacket),
        }
    }

    fn check_stateless(&self, context: &Transaction) -> (result: Result<(), Error>) {
        if check_packet_well_formed(&self.packet) && self.acknowledgement.len() > 0
            && check_proof_well_formed(&self.proof, &self.proof_height) {
            Ok(())
        } else {
            Err(Error::MalformedAction)
        }
    }

    fn proof_request(&self, state: &ChainState) -> (request: Option<ProofRequest>) {
        match check_resolution_admissible(state, &self.packet, &self.proof_height) {
            Err(_) => None,
            Ok(()) => {
                let packet = &self.packet;
                match check_route(
                    state,
                    &packet.port_on_a,
                    &packet.chan_on_a,
                    &packet.port_on_b,
                    &packet.chan_on_b,
                ) {
                    Err(_) => None,
                    Ok((channel, connection)) => Some(
                        ProofRequest {
                            client_id: connection.client_id.duplicate(),
                            height: self.proof_height,
                            claim: Claim::PacketAcknowledgement {
                                port_id: packet.port_on_b.duplicate(),
                                channel_id: packet.chan_on_b.duplicate(),
                                sequence: packet.sequence,
                                acknowledgement: self.acknowledgement.clone(),
                            },
                        },
                    ),
                }
            },
        }
    }

    fn check_stateful(&self, state: &ChainState, evidence: &Evidence) -> (result: Result<
        (),
        Error,
    >) {
        match check_resolution_admissible(state, &self.packet, &self.proof_height) {
            Err(error) => Err(error),
            Ok(()) => check_collaborators_agree(true, evidence),
        }
    }

    fn execute(&self, state: &mut ChainState, evidence: &Evidence) -> (result: Result<
        Outcome,
        Error,
    >) {
        match self.check_stateful(state, evidence) {
            Err(error) => {
                return Err(error);
            },
            Ok(()) => {},
        }
        let packet = &self.packet;
        let event = match check_route(
            state,
            &packet.port_on_a,
            &packet.chan_on_a,
            &packet.port_on_b,
            &packet.chan_on_b,
        ) {
            Err(error) => {
                return Err(error);
            },
            Ok((channel, connection)) => acknowledge_packet(packet, channel),
        };
        state.commitments.remove(
            &(packet.port_on_a.duplicate(), packet.chan_on_a.duplicate(), packet.sequence),
        );
        Ok(Outcome::single(event, hook(&packet.port_on_a, Stage::AcknowledgePacket)))
    }
}

/// What the proof of a timeout shows of the destination chain.
#[derive(Clone, Copy, Debug, PartialEq, Eq, Structural)]
pub enum TimeoutProof {
    /// It holds no receipt for the packet at a height at which the packet's
    /// timeout has been reached.
    ReceiptAbsent,
    /// It has closed its end of the channel, so that the packet can no
    /// longer be received.
    ChannelClosed,
}

/// Tells the source chain that a packet was not received and will not be.
#[derive(Clone, Debug, PartialEq, Eq)]
pub struct MsgTimeout {
    pub packet: Packet,
    /// What the proof shows.
    pub shows: TimeoutProof,
    pub proof: Vec<u8>,
    pub proof_height: Height,
}

impl MsgTimeout {
    /// What the light client is to verify: that the destination holds no
    /// receipt for the packet, or that it holds its end of the channel
    /// closed.
    pub open spec fn claim(&self, state: ChainStateView) -> ClaimView {
        let packet = self.packet@;
        let channel = state.channels[(packet.port_on_a, packet.chan_on_a)];
        match self.shows {
            TimeoutProof::ReceiptAbsent => ClaimView::PacketReceiptAbsent {
                port_id: packet.port_on_b,
                channel_id: packet.chan_on_b,
                sequence: packet.sequence,
            },
            TimeoutProof::ChannelClosed => ClaimView::Channel {
                port_id: packet.port_on_b,
                channel_id: packet.chan_on_b,
                channel_end: ChannelEndView {
                    state: ChannelState::Closed,
                    ordering: channel.ordering,
                    counterparty: ChannelCounterpartyView {
                        port_id: packet.port_on_a,
                        channel_id: Some(packet.chan_on_a),
                    },
                    connection_id: state.connections[channel.connection_id].counterparty.connection_id->0,
                },
            },
        }
    }

    /// With a proof of absence the packet's timeout must have been reached
    /// at the proof height; a closed channel needs no timeout.
    pub open spec fn in_time(&self, evidence: Evidence) -> bool {
        self.shows == TimeoutProof::ChannelClosed || timeout_reached(
            self.packet@,
            self.proof_height,
            evidence.consensus_timestamp,
        )
    }
}

impl ActionHandler for MsgTimeout {
    open spec fn stateless_result(&self) -> Result<(), Error> {
        well_formed(
            packet_well_formed(self.packet@) && proof_well_formed(self.proof@, self.proof_height),
        )
    }

    open spec fn proof_request_of(&self, state: ChainStateView) -> Option<ProofRequestView> {
        if resolution_admissible(state, self.packet@, self.proof_height) is Ok {
            let packet = self.packet@;
            Some(
                ProofRequestView {
                    client_id: state.connections[state.channels[(
                        packet.port_on_a,
                        packet.chan_on_a,
                    )].connection_id].client_id,
                    height: self.proof_height,
                    claim: self.claim(state),
                },
            )
        } else {
            None
        }
    }

    open spec fn stateful_result(&self, state: ChainStateView, evidence: Evidence) -> Result<
        (),
        Error,
    > {
        match resolution_admissible(state, self.packet@, self.proof_height) {
            Err(error) => Err(error),
            Ok(()) => {
                if !self.in_time(evidence) {
                    Err(Error::InvalidStateTransition)
                } else {
                    collaborators_agree(true, evidence)
                }
            },
        }
    }

    open spec fn applied(&self, state: ChainStateView, evidence: Evidence) -> ChainStateView {
        resolved(state, self.packet@)
    }

    open spec fn outcome_of(&self, state: ChainStateView, evidence: Evidence) -> OutcomeView {
        OutcomeView {
            events: seq![
                packet_event_view(
                    "timeout_packet"@,
                    state,
                    source_key(self.packet@),
                    self.packet@,
                ),
            ],
            callback: hook_call(self.packet@.port_on_a, Stage::TimeoutPacket),
        }
    }

    fn check_stateless(&self, context: &Transaction) -> (result: Result<(), Error>) {
        if check_packet_well_formed(&self.packet) && check_proof_well_formed(
            &self.proof,
            &self.proof_height,
        ) {
            Ok(())
        } else {
            Err(Error::MalformedAction)
        }
    }

    fn proof_request(&self, state: &ChainState) -> (request: Option<ProofRequest>) {
        match check_resolution_admissible(state, &self.packet, &self.proof_height) {
            Err(_) => None,
            Ok(()) => {
                let packet = &self.packet;
                match check_route(
                    state,
                    &packet.port_on_a,
                    &packet.chan_on_a,
                    &packet.port_on_b,
                    &packet.chan_on_b,
                ) {
                    Err(_) => None,
                    Ok((channel, connection)) => {
                        let claim = match self.shows {
                            TimeoutProof::ReceiptAbsent => Claim::PacketReceiptAbsent {
                                port_id: packet.port_on_b.duplicate(),
                                channel_id: packet.chan_on_b.duplicate(),
                                sequence: packet.sequence,
                            },
                            TimeoutProof::ChannelClosed => {
                                match &connection.counterparty.connection_id {
                                    None => {
                                        return None;
                                    },
                                    Some(counterparty_connection_id) => Claim::Channel {
                                        port_id: packet.port_on_b.duplicate(),
                                        channel_id: packet.chan_on_b.duplicate(),
                                        channel_end: ChannelEnd {
                                            state: ChannelState::Closed,
                                            ordering: channel.ordering,
                                            counterparty: ChannelCounterparty {
                                                port_id: packet.port_on_a.duplicate(),
                                                channel_id: Some(packet.chan_on_a.duplicate()),
                                            },
                                            connection_id: counterparty_connection_id.duplicate(),
                                        },
                                    },
                                }
                            },
                        };
                        Some(
                            ProofRequest {
                                client_id: connection.client_id.duplicate(),
                                height: self.proof_height,
                                claim,
                            },
                        )
                    },
                }
            },
        }
    }

    fn check_stateful(&self, state: &ChainState, evidence: &Evidence) -> (result: Result<
        (),
        Error,
    >) {
        match check_resolution_admissible(state, &self.packet, &self.proof_height) {
            Err(error) => Err(error),
            Ok(()) => {
                let packet = &self.packet;
                let reached = matches!(self.shows, TimeoutProof::ChannelClosed) || (
                !packet.timeout_height_on_b.has_no_height()
                    && packet.timeout_height_on_b.is_at_most(&self.proof_height)) || (
                packet.timeout_timestamp_on_b != 0 && packet.timeout_timestamp_on_b
                    <= evidence.consensus_timestamp);
                if !reached {
                    Err(Error::InvalidStateTransition)
                } else {
                    check_collaborators_agree(true, evidence)
                }
            },
        }
    }

    fn execute(&self, state: &mut ChainState, evidence: &Evidence) -> (result: Result<
        Outcome,
        Error,
    >) {
        match self.check_stateful(state, evidence) {
            Err(error) => {
                return Err(error);
            },
            Ok(()) => {},
        }
        let packet = &self.packet;
        let event = match check_route(
            state,
            &packet.port_on_a,
            &packet.chan_on_a,
            &packet.port_on_b,
            &packet.chan_on_b,
        ) {
            Err(error) => {
                return Err(error);
            },
            Ok((channel, connection)) => timeout_packet(packet, channel),
        };
        state.commitments.remove(
            &(packet.port_on_a.duplicate(), packet.chan_on_a.duplicate(), packet.sequence),
        );
        Ok(Outcome::single(event, hook(&packet.port_on_a, Stage::TimeoutPacket)))
    }
}

} // verus!
