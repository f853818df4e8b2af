//! What holds of every action and of every transaction.

use vstd::prelude::*;
use crate::action::{delivered, run, Action};
use crate::error::Error;
use crate::handler::{ActionHandler, Evidence};
use crate::ident::transfer_port_text;
use crate::packet::{channel_carries, destination_key, source_key};
use crate::state::{ChainStateView, ChannelKeyView, PacketKeyView};
use crate::types::{ChannelState, ConnectionState, PacketView};

verus! {

/// The state of a connection end, where the end exists.
pub open spec fn connection_state(state: ChainStateView, id: Seq<char>) -> Option<ConnectionState> {
    if state.connections.contains_key(id) {
        Some(state.connections[id].state)
    } else {
        None
    }
}

/// The state of a channel end, where the end exists.
pub open spec fn channel_state(state: ChainStateView, key: ChannelKeyView) -> Option<ChannelState> {
    if state.channels.contains_key(key) {
        Some(state.channels[key].state)
    } else {
        None
    }
}

/// What one action can do to the state of a connection end: leave it,
/// create the end in `Init` or in `TryOpen`, or open an end that is in
/// `Init` or in `TryOpen`.
pub open spec fn connection_step(before: Option<ConnectionState>, after: Option<ConnectionState>) -> bool {
    ||| after == before
    ||| before is None && after == Some(ConnectionState::Init)
    ||| before is None && after == Some(ConnectionState::TryOpen)
    ||| before == Some(ConnectionState::Init) && after == Some(ConnectionState::Open)
    ||| before == Some(ConnectionState::TryOpen) && after == Some(ConnectionState::Open)
}

/// What one action can do to the state of a channel end: leave it, create
/// the end in `Init` or in `TryOpen`, open an end that is in `Init` or in
/// `TryOpen`, or close an open end.
pub open spec fn channel_step(before: Option<ChannelState>, after: Option<ChannelState>) -> bool {
    ||| after == before
    ||| before is None && after == Some(ChannelState::Init)
    ||| before is None && after == Some(ChannelState::TryOpen)
    ||| before == Some(ChannelState::Init) && after == Some(ChannelState::Open)
    ||| before == Some(ChannelState::TryOpen) && after == Some(ChannelState::Open)
    ||| before == Some(ChannelState::Open) && after == Some(ChannelState::Closed)
}

/// How far a connection end has come: not there, in `Init` or `TryOpen`,
/// open.
pub open spec fn connection_progress(state: Option<ConnectionState>) -> int {
    match state {
        None => 0,
        Some(ConnectionState::Init) => 1,
        Some(ConnectionState::TryOpen) => 1,
        Some(ConnectionState::Open) => 2,
    }
}

/// How far a channel end has come: not there, in `Init` or `TryOpen`,
/// open, closed.
pub open spec fn channel_progress(state: Option<ChannelState>) -> int {
    match state {
        None => 0,
        Some(ChannelState::Init) => 1,
        Some(ChannelState::TryOpen) => 1,
        Some(ChannelState::Open) => 2,
        Some(ChannelState::Closed) => 3,
    }
}

/// A connection end that has not moved on is in the state it was in, and
/// no end goes back.
pub open spec fn connection_not_reversed(
    before: Option<ConnectionState>,
    after: Option<ConnectionState>,
) -> bool {
    after == before || connection_progress(before) < connection_progress(after)
}

/// A channel end that has not moved on is in the state it was in, and no
/// end goes back.
pub open spec fn channel_not_reversed(before: Option<ChannelState>, after: Option<ChannelState>) -> bool {
    after == before || channel_progress(before) < channel_progress(after)
}

/// An accepted action moves the state of every connection end and of every
/// channel end by one step of its life or not at all: an end is created in
/// `Init` by the chain that opens and in `TryOpen` by the chain that
/// answers, goes from either to `Open`, and a channel end from `Open` to
/// `Closed`. No end is ever removed.
pub proof fn lemma_action_follows_lifecycle(
    action: Action,
    state: ChainStateView,
    evidence: Evidence,
    connection_id: Seq<char>,
    channel_key: ChannelKeyView,
)
    requires
        action.stateful_result(state, evidence) is Ok,
    ensures
        connection_step(
            connection_state(state, connection_id),
            connection_state(action.applied(state, evidence), connection_id),
        ),
        channel_step(
            channel_state(state, channel_key),
            channel_state(action.applied(state, evidence), channel_key),
        ),
{
}

/// Over a whole run of actions no connection end and no channel end goes
/// back: its state after the run is the state before it, or one further on.
pub proof fn lemma_run_never_reverses(
    actions: Seq<Action>,
    evidence: Seq<Evidence>,
    state: ChainStateView,
    from: int,
    connection_id: Seq<char>,
    channel_key: ChannelKeyView,
)
    requires
        0 <= from,
        run(actions, evidence, state, from) is Ok,
    ensures
        connection_not_reversed(
            connection_state(state, connection_id),
            connection_state(run(actions, evidence, state, from)->Ok_0.state, connection_id),
        ),
        channel_not_reversed(
            channel_state(state, channel_key),
            channel_state(run(actions, evidence, state, from)->Ok_0.state, channel_key),
        ),
    decreases actions.len() - from,
{
    if from < actions.len() {
        let next = actions[from].applied(state, evidence[from]);
        lemma_action_follows_lifecycle(
            actions[from],
            state,
            evidence[from],
            connection_id,
            channel_key,
        );
        lemma_run_never_reverses(actions, evidence, next, from + 1, connection_id, channel_key);
    }
}

/// A delivered transaction leaves every connection end and every channel
/// end where it was or further on in its life.
pub proof fn lemma_transaction_never_reverses(
    state: ChainStateView,
    actions: Seq<Action>,
    evidence: Seq<Evidence>,
    connection_id: Seq<char>,
    channel_key: ChannelKeyView,
)
    requires
        delivered(state, actions, evidence) is Ok,
    ensures
        connection_not_reversed(
            connection_state(state, connection_id),
            connection_state(delivered(state, actions, evidence)->Ok_0.state, connection_id),
        ),
        channel_not_reversed(
            channel_state(state, channel_key),
            channel_state(delivered(state, actions, evidence)->Ok_0.state, channel_key),
        ),
{
    lemma_run_never_reverses(actions, evidence, state, 0, connection_id, channel_key);
}

/// The packet that an action resolves on the chain that sent it: the
/// packet of an acknowledgement or of a timeout.
pub open spec fn resolved_packet(action: Action) -> Option<PacketView> {
    match action {
        Action::Acknowledgement(msg) => Some(msg.packet@),
        Action::Timeout(msg) => Some(msg.packet@),
        _ => None,
    }
}

/// The packet that an action delivers to this chain.
pub open spec fn received_packet(action: Action) -> Option<PacketView> {
    match action {
        Action::RecvPacket(msg) => Some(msg.packet@),
        _ => None,
    }
}

/// An accepted acknowledgement or timeout removes the commitment to its
/// packet.
pub proof fn lemma_resolution_clears_commitment(
    action: Action,
    state: ChainStateView,
    evidence: Evidence,
)
    requires
        resolved_packet(action) is Some,
        action.stateful_result(state, evidence) is Ok,
    ensures
        !action.applied(state, evidence).commitments.contains_key(
            source_key(resolved_packet(action)->0),
        ),
{
}

/// Where the commitment for a channel end and sequence number is absent,
/// every acknowledgement and every timeout for them is rejected, whatever
/// the evidence. The rejection is for duplicate delivery whenever the
/// channel end carries packets: its port is bound, and it is open.
pub proof fn lemma_no_commitment_no_resolution(
    action: Action,
    state: ChainStateView,
    evidence: Evidence,
)
    requires
        resolved_packet(action) is Some,
        !state.commitments.contains_key(source_key(resolved_packet(action)->0)),
    ensures
        action.stateful_result(state, evidence) is Err,
        channel_carries(
            state,
            resolved_packet(action)->0.port_on_a,
            resolved_packet(action)->0.chan_on_a,
        ) is Ok ==> action.stateful_result(state, evidence) == Err::<(), Error>(
            Error::DuplicateDelivery,
        ),
{
}

/// After an acknowledgement or a timeout was accepted, every further
/// acknowledgement or timeout for the same source channel end and sequence
/// number is rejected for duplicate delivery, whatever else it holds and
/// whatever the evidence: of the two, at most one succeeds.
pub proof fn lemma_second_resolution_is_duplicate(
    first: Action,
    second: Action,
    state: ChainStateView,
    first_evidence: Evidence,
    second_evidence: Evidence,
)
    requires
        resolved_packet(first) is Some,
        resolved_packet(second) is Some,
        source_key(resolved_packet(second)->0) == source_key(resolved_packet(first)->0),
        first.stateful_result(state, first_evidence) is Ok,
    ensures
        second.stateful_result(first.applied(state, first_evidence), second_evidence) == Err::<
            (),
            Error,
        >(Error::DuplicateDelivery),
{
}

/// No action records a commitment: one that is absent before an accepted
/// action is absent after it. So a resolved packet stays resolved through
/// every run of actions.
pub proof fn lemma_actions_never_commit(
    action: Action,
    state: ChainStateView,
    evidence: Evidence,
    key: PacketKeyView,
)
    requires
        action.stateful_result(state, evidence) is Ok,
        !state.commitments.contains_key(key),
    ensures
        !action.applied(state, evidence).commitments.contains_key(key),
{
}

/// An accepted receive records the receipt of its packet.
pub proof fn lemma_receive_records_receipt(action: Action, state: ChainStateView, evidence: Evidence)
    requires
        received_packet(action) is Some,
        action.stateful_result(state, evidence) is Ok,
    ensures
        action.applied(state, evidence).receipts.contains(
            destination_key(received_packet(action)->0),
        ),
{
}

/// Where the receipt for a channel end and sequence number is present,
/// every receive for them is rejected, whatever the evidence: a valid proof
/// does not help. The rejection is for duplicate delivery whenever the
/// channel end carries packets: its port is bound, and it is open.
pub proof fn lemma_receipt_blocks_receive(action: Action, state: ChainStateView, evidence: Evidence)
    requires
        received_packet(action) is Some,
        state.receipts.contains(destination_key(received_packet(action)->0)),
    ensures
        action.stateful_result(state, evidence) is Err,
        channel_carries(
            state,
            received_packet(action)->0.port_on_b,
            received_packet(action)->0.chan_on_b,
        ) is Ok ==> action.stateful_result(state, evidence) == Err::<(), Error>(
            Error::DuplicateDelivery,
        ),
{
}

/// After a packet was received, a second receive for the same destination
/// channel end and sequence number is rejected for duplicate delivery,
/// whatever else it holds and whatever the evidence.
pub proof fn lemma_second_receive_is_duplicate(
    first: Action,
    second: Action,
    state: ChainStateView,
    first_evidence: Evidence,
    second_evidence: Evidence,
)
    requires
        received_packet(first) is Some,
        received_packet(second) is Some,
        destination_key(received_packet(second)->0) == destination_key(received_packet(first)->0),
        first.stateful_result(state, first_evidence) is Ok,
    ensures
        second.stateful_result(first.applied(state, first_evidence), second_evidence) == Err::<
            (),
            Error,
        >(Error::DuplicateDelivery),
{
}

/// No action removes a receipt: one that is present before an accepted
/// action is present after it. So a received packet stays received through
/// every run of actions.
pub proof fn lemma_actions_keep_receipts(
    action: Action,
    state: ChainStateView,
    evidence: Evidence,
    key: PacketKeyView,
)
    requires
        action.stateful_result(state, evidence) is Ok,
        state.receipts.contains(key),
    ensures
        action.applied(state, evidence).receipts.contains(key),
{
}

/// No action touches the light clients or the host's height and time:
/// clients change only when they are created or updated, outside the
/// actions.
pub proof fn lemma_actions_leave_clients(action: Action, state: ChainStateView, evidence: Evidence)
    requires
        action.stateful_result(state, evidence) is Ok,
    ensures
        action.applied(state, evidence).clients == state.clients,
        action.applied(state, evidence).host_height == state.host_height,
        action.applied(state, evidence).host_timestamp == state.host_timestamp,
{
}

/// No action changes the next sequence number of a channel end that
/// exists: sequence numbers are given out when packets are sent, and
/// nowhere else.
pub proof fn lemma_actions_leave_sequences(
    action: Action,
    state: ChainStateView,
    evidence: Evidence,
    key: ChannelKeyView,
)
    requires
        action.stateful_result(state, evidence) is Ok,
        state.channels.contains_key(key),
        state.next_sequence_send.contains_key(key),
    ensures
        action.applied(state, evidence).next_sequence_send.contains_key(key),
        action.applied(state, evidence).next_sequence_send[key] == state.next_sequence_send[key],
{
}

/// A rejected transaction can be replayed: delivery leaves the state as it
/// was, and against that state the same actions with the same evidence are
/// rejected with the same error.
pub proof fn lemma_rejected_transaction_replays(
    state: ChainStateView,
    after: ChainStateView,
    actions: Seq<Action>,
    evidence: Seq<Evidence>,
)
    requires
        delivered(state, actions, evidence) is Err,
        after == state,
    ensures
        delivered(after, actions, evidence) == delivered(state, actions, evidence),
{
}

/// A channel-open-ack message for a port other than the transfer port is
/// rejected, by the stateful check and so by execution, as for an invalid
/// port, whatever the state and the evidence.
pub proof fn lemma_channel_open_ack_needs_transfer_port(
    action: Action,
    state: ChainStateView,
    evidence: Evidence,
)
    requires
        action is ChannelOpenAck,
        action->ChannelOpenAck_0.port_id_on_a@ != transfer_port_text(),
    ensures
        action.stateful_result(state, evidence) == Err::<(), Error>(Error::InvalidPort),
{
}

} // verus!
