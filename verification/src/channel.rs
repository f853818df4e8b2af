//! The channel handshake and the closing of channels. A channel runs over
//! one open connection, between a port of this chain and a port of the
//! counterparty.

use vstd::prelude::*;
use crate::action::Transaction;
use crate::connection::{check_client_covers, check_proof_well_formed, client_covers, proof_well_formed, well_formed};
use crate::error::Error;
use crate::event::{
    channel_attributes, channel_close_confirm, channel_close_init, channel_open_ack,
    channel_open_confirm, channel_open_init, channel_open_try, EventView,
};
use crate::handler::{
    ActionHandler, Claim, ClaimView, Evidence, Outcome, OutcomeView, ProofRequest, ProofRequestView,
};
use crate::ident::{transfer_port_text, valid_identifier, ChannelId, ConnectionId, PortId};
use crate::router::{bound_application, hook, hook_call, lookup, Stage};
use crate::state::{ChainState, ChainStateView};
use crate::types::{
    ChannelCounterparty, ChannelCounterpartyView, ChannelEnd, ChannelEndView, ChannelState,
    ConnectionEnd, ConnectionState, Height, Order,
};

verus! {

/// The sequence number of the first packet that a channel end sends.
pub const FIRST_SEQUENCE: u64 = 1;

/// The connection exists, is open, and knows the counterparty's
/// identifier for it.
pub open spec fn connection_open(state: ChainStateView, connection_id: Seq<char>) -> bool {
    &&& state.connections.contains_key(connection_id)
    &&& state.connections[connection_id].state == ConnectionState::Open
    &&& state.connections[connection_id].counterparty.connection_id is Some
}

pub fn find_open_connection<'a>(state: &'a ChainState, connection_id: &ConnectionId) -> (found:
    Option<&'a ConnectionEnd>)
    ensures
        match found {
            Some(end) => connection_open(state@, connection_id@) && end@
                == state@.connections[connection_id@],
            None => !connection_open(state@, connection_id@),
        },
{
    match state.connections.get(connection_id) {
        None => None,
        Some(end) => {
            if matches!(end.state, ConnectionState::Open) && end.counterparty.connection_id.is_some() {
                Some(end)
            } else {
                None
            }
        },
    }
}

/// The verdicts of the light client, where a proof is needed, and of the
/// application, in that order.
pub open spec fn collaborators_agree(needs_proof: bool, evidence: Evidence) -> Result<(), Error> {
    if needs_proof && !evidence.proof_verified {
        Err(Error::ProofVerificationFailure)
    } else if !evidence.app_accepts {
        Err(Error::ApplicationRejected)
    } else {
        Ok(())
    }
}

pub fn check_collaborators_agree(needs_proof: bool, evidence: &Evidence) -> (result: Result<
    (),
    Error,
>)
    ensures
        result == collaborators_agree(needs_proof, *evidence),
{
    if needs_proof && !evidence.proof_verified {
        Err(Error::ProofVerificationFailure)
    } else if !evidence.app_accepts {
        Err(Error::ApplicationRejected)
    } else {
        Ok(())
    }
}

/// What the state must hold for a step on an existing channel end: the
/// port is bound; the channel end exists and is in the state the step
/// starts from; where the step needs it, the counterparty's channel
/// identifier is known; the connection is open; and where the step carries a
/// proof, the connection's client covers the proof height.
pub open spec fn channel_step_admissible(
    state: ChainStateView,
    port_id: Seq<char>,
    channel_id: Seq<char>,
    from: ChannelState,
    needs_counterparty_channel: bool,
    proof_height: Option<Height>,
) -> Result<(), Error> {
    if bound_application(port_id) is None {
        Err(Error::InvalidPort)
    } else if !state.channels.contains_key((port_id, channel_id)) {
        Err(Error::InvalidStateTransition)
    } else {
        let channel = state.channels[(port_id, channel_id)];
        if channel.state != from {
            Err(Error::InvalidStateTransition)
        } else if needs_counterparty_channel && channel.counterparty.channel_id is None {
            Err(Error::InvalidStateTransition)
        } else if !connection_open(state, channel.connection_id) {
            Err(Error::InvalidStateTransition)
        } else {
            match proof_height {
                Some(height) => client_covers(
                    state,
                    state.connections[channel.connection_id].client_id,
                    height,
                ),
                None => Ok(()),
            }
        }
    }
}

pub fn same_channel_state(a: &ChannelState, b: &ChannelState) -> (equal: bool)
    ensures
        equal == (*a == *b),
{
    match (a, b) {
        (ChannelState::Init, ChannelState::Init) => true,
        (ChannelState::TryOpen, ChannelState::TryOpen) => true,
        (ChannelState::Open, ChannelState::Open) => true,
        (ChannelState::Closed, ChannelState::Closed) => true,
        _ => false,
    }
}

pub fn check_channel_step(
    state: &ChainState,
    port_id: &PortId,
    channel_id: &ChannelId,
    from: ChannelState,
    needs_counterparty_channel: bool,
    proof_height: Option<Height>,
) -> (result: Result<(), Error>)
    ensures
        result == channel_step_admissible(
            state@,
            port_id@,
            channel_id@,
            from,
            needs_counterparty_channel,
            proof_height,
        ),
{
    if lookup(port_id).is_none() {
        return Err(Error::InvalidPort);
    }
    let key = (port_id.duplicate(), channel_id.duplicate());
    match state.channels.get(&key) {
        None => Err(Error::InvalidStateTransition),
        Some(channel) => {
            if !same_channel_state(&channel.state, &from) {
                Err(Error::InvalidStateTransition)
            } else if needs_counterparty_channel && channel.counterparty.channel_id.is_none() {
                Err(Error::InvalidStateTransition)
            } else {
                match find_open_connection(state, &channel.connection_id) {
                    None => Err(Error::InvalidStateTransition),
                    Some(connection) => {
                        match proof_height {
                            Some(height) => check_client_covers(
                                state,
                                &connection.client_id,
                                &height,
                            ),
                            None => Ok(()),
                        }
                    },
                }
            }
        },
    }
}

/// The request to show that the counterparty holds its end of a channel in
/// `expected_state`: with the same ordering as this end, with this end as
/// its counterparty, over the counterparty's end of the connection.
pub open spec fn channel_request_view(
    state: ChainStateView,
    port_id: Seq<char>,
    channel_id: Seq<char>,
    counterparty_channel_id: Seq<char>,
    expected_state: ChannelState,
    proof_height: Height,
) -> ProofRequestView {
    let channel = state.channels[(port_id, channel_id)];
    let connection = state.connections[channel.connection_id];
    ProofRequestView {
        client_id: connection.client_id,
        height: proof_height,
        claim: ClaimView::Channel {
            port_id: channel.counterparty.port_id,
            channel_id: counterparty_channel_id,
            channel_end: ChannelEndView {
                state: expected_state,
                ordering: channel.ordering,
                counterparty: ChannelCounterpartyView {
                    port_id,
                    channel_id: Some(channel_id),
                },
                connection_id: connection.counterparty.connection_id->0,
            },
        },
    }
}

fn channel_request(
    state: &ChainState,
    port_id: &PortId,
    channel_id: &ChannelId,
    counterparty_channel_id: &ChannelId,
    expected_state: ChannelState,
    proof_height: Height,
) -> (request: Option<ProofRequest>)
    requires
        state@.channels.contains_key((port_id@, channel_id@)),
        connection_open(state@, state@.channels[(port_id@, channel_id@)].connection_id),
    ensures
        request matches Some(request) && request@ == channel_request_view(
            state@,
            port_id@,
            channel_id@,
            counterparty_channel_id@,
            expected_state,
            proof_height,
        ),
{
    let key = (port_id.duplicate(), channel_id.duplicate());
    match state.channels.get(&key) {
        None => None,
        Some(channel) => {
            match find_open_connection(state, &channel.connection_id) {
                None => None,
                Some(connection) => {
                    match &connection.counterparty.connection_id {
                        None => None,
                        Some(counterparty_connection_id) => Some(
                            ProofRequest {
                                client_id: connection.client_id.duplicate(),
                                height: proof_height,
                                claim: Claim::Channel {
                                    port_id: channel.counterparty.port_id.duplicate(),
                                    channel_id: counterparty_channel_id.duplicate(),
                                    channel_end: ChannelEnd {
                                        state: expected_state,
                                        ordering: channel.ordering,
                                        counterparty: ChannelCounterparty {
                                            port_id: port_id.duplicate(),
                                            channel_id: Some(channel_id.duplicate()),
                                        },
                                        connection_id: counterparty_connection_id.duplicate(),
                                    },
                                },
                            },
                        ),
                    }
                },
            }
        },
    }
}

/// The event of a channel step.
pub open spec fn channel_event_view(
    kind: Seq<char>,
    port_id: Seq<char>,
    channel_id: Seq<char>,
    end: ChannelEndView,
) -> EventView {
    EventView { kind, attributes: channel_attributes(port_id, channel_id, end) }
}

/// The state with a channel end put in place.
pub open spec fn with_channel(
    state: ChainStateView,
    port_id: Seq<char>,
    channel_id: Seq<char>,
    end: ChannelEndView,
) -> ChainStateView {
    ChainStateView { channels: state.channels.insert((port_id, channel_id), end), ..state }
}

/// The state with a new channel end, which is to send its first packet.
pub open spec fn with_new_channel(
    state: ChainStateView,
    port_id: Seq<char>,
    channel_id: Seq<char>,
    end: ChannelEndView,
) -> ChainStateView {
    ChainStateView {
        channels: state.channels.insert((port_id, channel_id), end),
        next_sequence_send: state.next_sequence_send.insert((port_id, channel_id), FIRST_SEQUENCE),
        ..state
    }
}

/// Opens a channel on this chain: the first step of the handshake.
#[derive(Clone, Debug, PartialEq, Eq)]
pub struct MsgChannelOpenInit {
    pub port_id: PortId,
    /// The identifier chosen for the channel end on this chain.
    pub channel_id: ChannelId,
    pub ordering: Order,
    /// The connection that the channel runs over.
    pub connection_id: ConnectionId,
    pub counterparty_port_id: PortId,
}

impl MsgChannelOpenInit {
    /// The channel end that the step creates.
    pub open spec fn new_end(&self) -> ChannelEndView {
        ChannelEndView {
            state: ChannelState::Init,
            ordering: self.ordering,
            counterparty: ChannelCounterpartyView {
                port_id: self.counterparty_port_id@,
                channel_id: None,
            },
            connection_id: self.connection_id@,
        }
    }

    /// What the state must hold for the step.
    pub open spec fn admissible(&self, state: ChainStateView) -> Result<(), Error> {
        if bound_application(self.port_id@) is None {
            Err(Error::InvalidPort)
        } else if state.channels.contains_key((self.port_id@, self.channel_id@)) {
            Err(Error::InvalidStateTransition)
        } else if !state.connections.contains_key(self.connection_id@) {
            Err(Error::InvalidStateTransition)
        } else {
            Ok(())
        }
    }

    fn check_admissible(&self, state: &ChainState) -> (result: Result<(), Error>)
        ensures
            result == self.admissible(state@),
    {
        if lookup(&self.port_id).is_none() {
            return Err(Error::InvalidPort);
        }
        let key = (self.port_id.duplicate(), self.channel_id.duplicate());
        if state.channels.contains(&key) {
            Err(Error::InvalidStateTransition)
        } else if !state.connections.contains(&self.connection_id) {
            Err(Error::InvalidStateTransition)
        } else {
            Ok(())
        }
    }
}

impl ActionHandler for MsgChannelOpenInit {
    open spec fn stateless_result(&self) -> Result<(), Error> {
        well_formed(
            valid_identifier(self.port_id@) && valid_identifier(self.channel_id@)
                && valid_identifier(self.connection_id@) && valid_identifier(
                self.counterparty_port_id@,
            ),
        )
    }

    open spec fn proof_request_of(&self, state: ChainStateView) -> Option<ProofRequestView> {
        None
    }

    open spec fn stateful_result(&self, state: ChainStateView, evidence: Evidence) -> Result<
        (),
        Error,
    > {
        match self.admissible(state) {
            Err(error) => Err(error),
            Ok(()) => collaborators_agree(false, evidence),
        }
    }

    open spec fn applied(&self, state: ChainStateView, evidence: Evidence) -> ChainStateView {
        with_new_channel(state, self.port_id@, self.channel_id@, self.new_end())
    }

    open spec fn outcome_of(&self, state: ChainStateView, evidence: Evidence) -> OutcomeView {
        OutcomeView {
            events: seq![
                channel_event_view(
                    "channel_open_init"@,
                    self.port_id@,
                    self.channel_id@,
                    self.new_end(),
                ),
            ],
            callback: hook_call(self.port_id@, Stage::ChannelOpenInit),
        }
    }

    fn check_stateless(&self, context: &Transaction) -> (result: Result<(), Error>) {
        if self.port_id.is_valid() && self.channel_id.is_valid() && self.connection_id.is_valid()
            && self.counterparty_port_id.is_valid() {
            Ok(())
        } else {
            Err(Error::MalformedAction)
        }
    }

    fn proof_request(&self, state: &ChainState) -> (request: Option<ProofRequest>) {
        None
    }

    fn check_stateful(&self, state: &ChainState, evidence: &Evidence) -> (result: Result<
        (),
        Error,
    >) {
        match self.check_admissible(state) {
            Err(error) => Err(error),
            Ok(()) => check_collaborators_agree(false, evidence),
        }
    }

    fn execute(&self, state: &mut ChainState, evidence: &Evidence) -> (result: Result<
        Outcome,
        Error,
    >) {
        match self.check_stateful(state, evidence) {
            Err(error) => {
                return Err(error);
            },
            Ok(()) => {},
        }
        let end = ChannelEnd {
            state: ChannelState::Init,
            ordering: self.ordering,
            counterparty: ChannelCounterparty {
                port_id: self.counterparty_port_id.duplicate(),
                channel_id: None,
            },
            connection_id: self.connection_id.duplicate(),
        };
        let event = channel_open_init(&self.port_id, &self.channel_id, &end);
        state.channels.insert((self.port_id.duplicate(), self.channel_id.duplicate()), end);
        state.next_sequence_send.insert(
            (self.port_id.duplicate(), self.channel_id.duplicate()),
            FIRST_SEQUENCE,
        );
        Ok(Outcome::single(event, hook(&self.port_id, Stage::ChannelOpenInit)))
    }
}

/// Answers a channel opened on the counterparty: the second step of the
/// handshake.
#[derive(Clone, Debug, PartialEq, Eq)]
pub struct MsgChannelOpenTry {
    pub port_id: PortId,
    /// The identifier proposed for the channel end on this chain.
    pub channel_id: ChannelId,
    pub ordering: Order,
    /// The connection that the channel runs over.
    pub connection_id: ConnectionId,
    pub counterparty_port_id: PortId,
    pub counterparty_channel_id: ChannelId,
    /// Proof that the counterparty holds its channel end in `Init`.
    pub proof: Vec<u8>,
    pub proof_height: Height,
}

impl MsgChannelOpenTry {
    /// The channel end that the step creates.
    pub open spec fn new_end(&self) -> ChannelEndView {
        ChannelEndView {
            state: ChannelState::TryOpen,
            ordering: self.ordering,
            counterparty: ChannelCounterpartyView {
                port_id: self.counterparty_port_id@,
                channel_id: Some(self.counterparty_channel_id@),
            },
            connection_id: self.connection_id@,
        }
    }

    /// The channel end that the counterparty must be shown to hold.
    pub open spec fn expected_end(&self, state: ChainStateView) -> ChannelEndView {
        ChannelEndView {
            state: ChannelState::Init,
            ordering: self.ordering,
            counterparty: ChannelCounterpartyView { port_id: self.port_id@, channel_id: None },
            connection_id: state.connections[self.connection_id@].counterparty.connection_id->0,
        }
    }

    /// What the state must hold for the step, the proof aside.
    pub open spec fn admissible(&self, state: ChainStateView) -> Result<(), Error> {
        if bound_application(self.port_id@) is None {
            Err(Error::InvalidPort)
        } else if state.channels.contains_key((self.port_id@, self.channel_id@)) {
            Err(Error::InvalidStateTransition)
        } else if !connection_open(state, self.connection_id@) {
            Err(Error::InvalidStateTransition)
        } else {
            client_covers(
                state,
                state.connections[self.connection_id@].client_id,
                self.proof_height,
            )
        }
    }

    fn check_admissible(&self, state: &ChainState) -> (result: Result<(), Error>)
        ensures
            result == self.admissible(state@),
    {
        if lookup(&self.port_id).is_none() {
            return Err(Error::InvalidPort);
        }
        let key = (self.port_id.duplicate(), self.channel_id.duplicate());
        if state.channels.contains(&key) {
            return Err(Error::InvalidStateTransition);
        }
        match find_open_connection(state, &self.connection_id) {
            None => Err(Error::InvalidStateTransition),
            Some(connection) => check_client_covers(state, &connection.client_id, &self.proof_height),
        }
    }
}

impl ActionHandler for MsgChannelOpenTry {
    open spec fn stateless_result(&self) -> Result<(), Error> {
        well_formed(
            valid_identifier(self.port_id@) && valid_identifier(self.channel_id@)
                && valid_identifier(self.connection_id@) && valid_identifier(
                self.counterparty_port_id@,
            ) && valid_identifier(self.counterparty_channel_id@) && proof_well_formed(
                self.proof@,
                self.proof_height,
            ),
        )
    }

    open spec fn proof_request_of(&self, state: ChainStateView) -> Option<ProofRequestView> {
        if self.admissible(state) is Ok {
            Some(
                ProofRequestView {
                    client_id: state.connections[self.connection_id@].client_id,
                    height: self.proof_height,
                    claim: ClaimView::Channel {
                        port_id: self.counterparty_port_id@,
                        channel_id: self.counterparty_channel_id@,
                        channel_end: self.expected_end(state),
                    },
                },
            )
        } else {
            None
        }
    }

    open spec fn stateful_result(&self, state: ChainStateView, evidence: Evidence) -> Result<
        (),
        Error,
    > {
        match self.admissible(state) {
            Err(error) => Err(error),
            Ok(()) => collaborators_agree(true, evidence),
        }
    }

    open spec fn applied(&self, state: ChainStateView, evidence: Evidence) -> ChainStateView {
        with_new_channel(state, self.port_id@, self.channel_id@, self.new_end())
    }

    open spec fn outcome_of(&self, state: ChainStateView, evidence: Evidence) -> OutcomeView {
        OutcomeView {
            events: seq![
                channel_event_view(
                    "channel_open_try"@,
                    self.port_id@,
                    self.channel_id@,
                    self.new_end(),
                ),
            ],
            callback: hook_call(self.port_id@, Stage::ChannelOpenTry),
        }
    }

    fn check_stateless(&self, context: &Transaction) -> (result: Result<(), Error>) {
        if self.port_id.is_valid() && self.channel_id.is_valid() && self.connection_id.is_valid()
            && self.counterparty_port_id.is_valid() && self.counterparty_channel_id.is_valid()
            && check_proof_well_formed(&self.proof, &self.proof_height) {
            Ok(())
        } else {
            Err(Error::MalformedAction)
        }
    }

    fn proof_request(&self, state: &ChainState) -> (request: Option<ProofRequest>) {
        match self.check_admissible(state) {
            Err(_) => None,
            Ok(()) => {
                match find_open_connection(state, &self.connection_id) {
                    None => None,
                    Some(connection) => {
                        match &connection.counterparty.connection_id {
                            None => None,
                            Some(counterparty_connection_id) => Some(
                                ProofRequest {
                                    client_id: connection.client_id.duplicate(),
                                    height: self.proof_height,
                                    claim: Claim::Channel {
                                        port_id: self.counterparty_port_id.duplicate(),
                                        channel_id: self.counterparty_channel_id.duplicate(),
                                        channel_end: ChannelEnd {
                                            state: ChannelState::Init,
                                            ordering: self.ordering,
                                            counterparty: ChannelCounterparty {
                                                port_id: self.port_id.duplicate(),
                                                channel_id: None,
                                            },
                                            connection_id: counterparty_connection_id.duplicate(),
                                        },
                                    },
                                },
                            ),
                        }
                    },
                }
            },
        }
    }

    fn check_stateful(&self, state: &ChainState, evidence: &Evidence) -> (result: Result<
        (),
        Error,
    >) {
        match self.check_admissible(state) {
            Err(error) => Err(error),
            Ok(()) => check_collaborators_agree(true, evidence),
        }
    }

    fn execute(&self, state: &mut ChainState, evidence: &Evidence) -> (result: Result<
        Outcome,
        Error,
    >) {
        match self.check_stateful(state, evidence) {
            Err(error) => {
                return Err(error);
            },
            Ok(()) => {},
        }
        let end = ChannelEnd {
            state: ChannelState::TryOpen,
            ordering: self.ordering,
            counterparty: ChannelCounterparty {
                port_id: self.counterparty_port_id.duplicate(),
                channel_id: Some(self.counterparty_channel_id.duplicate()),
            },
            connection_id: self.connection_id.duplicate(),
        };
        let event = channel_open_try(&self.port_id, &self.channel_id, &end);
        state.channels.insert((self.port_id.duplicate(), self.channel_id.duplicate()), end);
        state.next_sequence_send.insert(
            (self.port_id.duplicate(), self.channel_id.duplicate()),
            FIRST_SEQUENCE,
        );
        Ok(Outcome::single(event, hook(&self.port_id, Stage::ChannelOpenTry)))
    }
}

/// A copy of the channel end stored for a key, in a new state and, where
/// one is given, with the counterparty's channel identifier set.
pub fn advanced_end(
    state: &ChainState,
    port_id: &PortId,
    channel_id: &ChannelId,
    to: ChannelState,
    counterparty_channel_id: Option<&ChannelId>,
) -> (end: Option<ChannelEnd>)
    ensures
        match end {
            Some(end) => {
                &&& state@.channels.contains_key((port_id@, channel_id@))
                &&& end@ == advanced_end_view(
                    state@.channels[(port_id@, channel_id@)],
                    to,
                    match counterparty_channel_id {
                        Some(id) => Some(id@),
                        None => None,
                    },
                )
            },
            None => !state@.channels.contains_key((port_id@, channel_id@)),
        },
{
    let key = (port_id.duplicate(), channel_id.duplicate());
    match state.channels.get(&key) {
        None => None,
        Some(channel) => {
            let counterparty_channel = match counterparty_channel_id {
                Some(id) => Some(id.duplicate()),
                None => match &channel.counterparty.channel_id {
                    Some(id) => Some(id.duplicate()),
                    None => None,
                },
            };
            Some(
                ChannelEnd {
                    state: to,
                    ordering: channel.ordering,
                    counterparty: ChannelCounterparty {
                        port_id: channel.counterparty.port_id.duplicate(),
                        channel_id: counterparty_channel,
                    },
                    connection_id: channel.connection_id.duplicate(),
                },
            )
        },
    }
}

/// A channel end moved to a new state; where a counterparty channel
/// identifier is given, it is recorded.
pub open spec fn advanced_end_view(
    end: ChannelEndView,
    to: ChannelState,
    counterparty_channel_id: Option<Seq<char>>,
) -> ChannelEndView {
    ChannelEndView {
        state: to,
        ordering: end.ordering,
        counterparty: ChannelCounterpartyView {
            port_id: end.counterparty.port_id,
            channel_id: match counterparty_channel_id {
                Some(id) => Some(id),
                None => end.counterparty.channel_id,
            },
        },
        connection_id: end.connection_id,
    }
}

/// Completes the channel handshake on the chain that opened the channel:
/// the third step.
#[derive(Clone, Debug, PartialEq, Eq)]
pub struct MsgChannelOpenAck {
    pub port_id_on_a: PortId,
    /// The channel end on this chain.
    pub chan_id_on_a: ChannelId,
    /// The channel end that the counterparty created in its Try step.
    pub chan_id_on_b: ChannelId,
    /// Proof that the counterparty holds its channel end in `TryOpen`.
    pub proof: Vec<u8>,
    pub proof_height: Height,
}

impl MsgChannelOpenAck {
    /// The channel end after the step.
    pub open spec fn new_end(&self, state: ChainStateView) -> ChannelEndView {
        advanced_end_view(
            state.channels[(self.port_id_on_a@, self.chan_id_on_a@)],
            ChannelState::Open,
            Some(self.chan_id_on_b@),
        )
    }

    /// What the state must hold for the step, the proof aside.
    pub open spec fn admissible(&self, state: ChainStateView) -> Result<(), Error> {
        channel_step_admissible(
            state,
            self.port_id_on_a@,
            self.chan_id_on_a@,
            ChannelState::Init,
            false,
            Some(self.proof_height),
        )
    }
}

impl ActionHandler for MsgChannelOpenAck {
    open spec fn stateless_result(&self) -> Result<(), Error> {
        Ok(())
    }

    open spec fn proof_request_of(&self, state: ChainStateView) -> Option<ProofRequestView> {
        if self.admissible(state) is Ok {
            Some(
                channel_request_view(
                    state,
                    self.port_id_on_a@,
                    self.chan_id_on_a@,
                    self.chan_id_on_b@,
                    ChannelState::TryOpen,
                    self.proof_height,
                ),
            )
        } else {
            None
        }
    }

    open spec fn stateful_result(&self, state: ChainStateView, evidence: Evidence) -> Result<
        (),
        Error,
    > {
        match self.admissible(state) {
            Err(error) => Err(error),
            Ok(()) => collaborators_agree(true, evidence),
        }
    }

    open spec fn applied(&self, state: ChainStateView, evidence: Evidence) -> ChainStateView {
        with_channel(state, self.port_id_on_a@, self.chan_id_on_a@, self.new_end(state))
    }

    open spec fn outcome_of(&self, state: ChainStateView, evidence: Evidence) -> OutcomeView {
        OutcomeView {
            events: seq![
                channel_event_view(
                    "channel_open_ack"@,
                    self.port_id_on_a@,
                    self.chan_id_on_a@,
                    self.new_end(state),
                ),
            ],
            callback: hook_call(self.port_id_on_a@, Stage::ChannelOpenAck),
        }
    }

    /// No stateless validation is possible for this message.
    fn check_stateless(&self, context: &Transaction) -> (result: Result<(), Error>) {
        Ok(())
    }

    fn proof_request(&self, state: &ChainState) -> (request: Option<ProofRequest>) {
        match check_channel_step(
            state,
            &self.port_id_on_a,
            &self.chan_id_on_a,
            ChannelState::Init,
            false,
            Some(self.proof_height),
        ) {
            Err(_) => None,
            Ok(()) => channel_request(
                state,
                &self.port_id_on_a,
                &self.chan_id_on_a,
                &self.chan_id_on_b,
                ChannelState::TryOpen,
                self.proof_height,
            ),
        }
    }

    /// A message for a port other than the transfer port is rejected as for
    /// an invalid port, whatever else it holds.
    fn check_stateful(&self, state: &ChainState, evidence: &Evidence) -> (result: Result<
        (),
        Error,
    >)
        ensures
            self.port_id_on_a@ != transfer_port_text() ==> result == Err::<(), Error>(
                Error::InvalidPort,
            ),
    {
        match check_channel_step(
            state,
            &self.port_id_on_a,
            &self.chan_id_on_a,
            ChannelState::Init,
            false,
            Some(self.proof_height),
        ) {
            Err(error) => Err(error),
            Ok(()) => check_collaborators_agree(true, evidence),
        }
    }

    /// A message for a port other than the transfer port is rejected as for
    /// an invalid port, and the state stays as it was.
    fn execute(&self, state: &mut ChainState, evidence: &Evidence) -> (result: Result<
        Outcome,
        Error,
    >)
        ensures
            self.port_id_on_a@ != transfer_port_text() ==> result is Err && result->Err_0
                == Error::InvalidPort && final(state)@ == old(state)@,
    {
        match self.check_stateful(state, evidence) {
            Err(error) => {
                return Err(error);
            },
            Ok(()) => {},
        }
        let end = match advanced_end(
            state,
            &self.port_id_on_a,
            &self.chan_id_on_a,
            ChannelState::Open,
            Some(&self.chan_id_on_b),
        ) {
            None => {
                return Err(Error::InvalidStateTransition);
            },
            Some(end) => end,
        };
        let event = channel_open_ack(&self.port_id_on_a, &self.chan_id_on_a, &end);
        state.channels.insert((self.port_id_on_a.duplicate(), self.chan_id_on_a.duplicate()), end);
        Ok(Outcome::single(event, hook(&self.port_id_on_a, Stage::ChannelOpenAck)))
    }
}

/// Completes the channel handshake on the chain that answered: the fourth
/// step.
#[derive(Clone, Debug, PartialEq, Eq)]
pub struct MsgChannelOpenConfirm {
    pub port_id: PortId,
    /// The channel end on this chain.
    pub channel_id: ChannelId,
    /// Proof that the counterparty holds its channel end in `Open`.
    pub proof: Vec<u8>,
    pub proof_height: Height,
}

impl MsgChannelOpenConfirm {
    /// The channel end after the step.
    pub open spec fn new_end(&self, state: ChainStateView) -> ChannelEndView {
        advanced_end_view(
            state.channels[(self.port_id@, self.channel_id@)],
            ChannelState::Open,
            None,
        )
    }

    /// What the state must hold for the step, the collaborators aside.
    pub open spec fn admissible(&self, state: ChainStateView) -> Result<(), Error> {
        channel_step_admissible(
            state,
            self.port_id@,
            self.channel_id@,
            ChannelState::TryOpen,
            true,
            Some(self.proof_height),
        )
    }

    fn check_admissible(&self, state: &ChainState) -> (result: Result<(), Error>)
        ensures
            result == self.admissible(state@),
    {
        check_channel_step(
            state,
            &self.port_id,
            &self.channel_id,
            ChannelState::TryOpen,
            true,
            Some(self.proof_height),
        )
    }
}

impl ActionHandler for MsgChannelOpenConfirm {
    open spec fn stateless_result(&self) -> Result<(), Error> {
        well_formed(
            valid_identifier(self.port_id@) && valid_identifier(self.channel_id@) && proof_well_formed(
                self.proof@,
                self.proof_height,
            ),
        )
    }

    open spec fn proof_request_of(&self, state: ChainStateView) -> Option<ProofRequestView> {
        if self.admissible(state) is Ok {
            Some(
                channel_request_view(
                    state,
                    self.port_id@,
                    self.channel_id@,
                    state.channels[(self.port_id@, self.channel_id@)].counterparty.channel_id->0,
                    ChannelState::Open,
                    self.proof_height,
                ),
            )
        } else {
            None
        }
    }

    open spec fn stateful_result(&self, state: ChainStateView, evidence: Evidence) -> Result<
        (),
        Error,
    > {
        match self.admissible(state) {
            Err(error) => Err(error),
            Ok(()) => collaborators_agree(true, evidence),
        }
    }

    open spec fn applied(&self, state: ChainStateView, evidence: Evidence) -> ChainStateView {
        with_channel(state, self.port_id@, self.channel_id@, self.new_end(state))
    }

    open spec fn outcome_of(&self, state: ChainStateView, evidence: Evidence) -> OutcomeView {
        OutcomeView {
            events: seq![
                channel_event_view(
                    "channel_open_confirm"@,
                    self.port_id@,
                    self.channel_id@,
                    self.new_end(state),
                ),
            ],
            callback: hook_call(self.port_id@, Stage::ChannelOpenConfirm),
        }
    }

    fn check_stateless(&self, context: &Transaction) -> (result: Result<(), Error>) {
        if self.port_id.is_valid() && self.channel_id.is_valid() && check_proof_well_formed(
            &self.proof,
            &self.proof_height,
        ) {
            Ok(())
        } else {
            Err(Error::MalformedAction)
        }
    }

    fn proof_request(&self, state: &ChainState) -> (request: Option<ProofRequest>) {
        match self.check_admissible(state) {
            Err(_) => None,
            Ok(()) => {
                let key = (self.port_id.duplicate(), self.channel_id.duplicate());
                match state.channels.get(&key) {
                    None => None,
                    Some(channel) => {
                        match &channel.counterparty.channel_id {
                            None => None,
                            Some(counterparty_channel_id) => channel_request(
                                state,
                                &self.port_id,
                                &self.channel_id,
                                counterparty_channel_id,
                                ChannelState::Open,
                                self.proof_height,
                            ),
                        }
                    },
                }
            },
        }
    }

    fn check_stateful(&self, state: &ChainState, evidence: &Evidence) -> (result: Result<
        (),
        Error,
    >) {
        match self.check_admissible(state) {
            Err(error) => Err(error),
            Ok(()) => check_collaborators_agree(true, evidence),
        }
    }

    fn execute(&self, state: &mut ChainState, evidence: &Evidence) -> (result: Result<
        Outcome,
        Error,
    >) {
        match self.check_stateful(state, evidence) {
            Err(error) => {
                return Err(error);
            },
            Ok(()) => {},
        }
        let end = match advanced_end(
            state,
            &self.port_id,
            &self.channel_id,
            ChannelState::Open,
            None,
        ) {
            None => {
                return Err(Error::InvalidStateTransition);
            },
            Some(end) => end,
        };
        let event = channel_open_confirm(&self.port_id, &self.channel_id, &end);
        state.channels.insert((self.port_id.duplicate(), self.channel_id.duplicate()), end);
        Ok(Outcome::single(event, hook(&self.port_id, Stage::ChannelOpenConfirm)))
    }
}

/// Closes an open channel from this chain. A closed channel end stays
/// closed.
#[derive(Clone, Debug, PartialEq, Eq)]
pub struct MsgChannelCloseInit {
    pub port_id: PortId,
    /// The channel end on this chain.
    pub channel_id: ChannelId,
}

impl MsgChannelCloseInit {
    /// The channel end after the step.
    pub open spec fn new_end(&self, state: ChainStateView) -> ChannelEndView {
        advanced_end_view(
            state.channels[(self.port_id@, self.channel_id@)],
            ChannelState::Closed,
            None,
        )
    }

    /// What the state must hold for the step, the collaborators aside.
    pub open spec fn admissible(&self, state: ChainStateView) -> Result<(), Error> {
        channel_step_admissible(
            state,
            self.port_id@,
            self.channel_id@,
            ChannelState::Open,
            false,
            None,
        )
    }

    fn check_admissible(&self, state: &ChainState) -> (result: Result<(), Error>)
        ensures
            result == self.admissible(state@),
    {
        check_channel_step(
            state,
            &self.port_id,
            &self.channel_id,
            ChannelState::Open,
            false,
            None,
        )
    }
}

impl ActionHandler for MsgChannelCloseInit {
    open spec fn stateless_result(&self) -> Result<(), Error> {
        well_formed(
            valid_identifier(self.port_id@) && valid_identifier(self.channel_id@),
        )
    }

    open spec fn proof_request_of(&self, state: ChainStateView) -> Option<ProofRequestView> {
        None
    }

    open spec fn stateful_result(&self, state: ChainStateView, evidence: Evidence) -> Result<
        (),
        Error,
    > {
        match self.admissible(state) {
            Err(error) => Err(error),
            Ok(()) => collaborators_agree(false, evidence),
        }
    }

    open spec fn applied(&self, state: ChainStateView, evidence: Evidence) -> ChainStateView {
        with_channel(state, self.port_id@, self.channel_id@, self.new_end(state))
    }

    open spec fn outcome_of(&self, state: ChainStateView, evidence: Evidence) -> OutcomeView {
        OutcomeView {
            events: seq![
                channel_event_view(
                    "channel_close_init"@,
                    self.port_id@,
                    self.channel_id@,
                    self.new_end(state),
                ),
            ],
            callback: hook_call(self.port_id@, Stage::ChannelCloseInit),
        }
    }

    fn check_stateless(&self, context: &Transaction) -> (result: Result<(), Error>) {
        if self.port_id.is_valid() && self.channel_id.is_valid() {
            Ok(())
        } else {
            Err(Error::MalformedAction)
        }
    }

    fn proof_request(&self, state: &ChainState) -> (request: Option<ProofRequest>) {
        None
    }

    fn check_stateful(&self, state: &ChainState, evidence: &Evidence) -> (result: Result<
        (),
        Error,
    >) {
        match self.check_admissible(state) {
            Err(error) => Err(error),
            Ok(()) => check_collaborators_agree(false, evidence),
        }
    }

    fn execute(&self, state: &mut ChainState, evidence: &Evidence) -> (result: Result<
        Outcome,
        Error,
    >) {
        match self.check_stateful(state, evidence) {
            Err(error) => {
                return Err(error);
            },
            Ok(()) => {},
        }
        let end = match advanced_end(
            state,
            &self.port_id,
            &self.channel_id,
            ChannelState::Closed,
            None,
        ) {
            None => {
                return Err(Error::InvalidStateTransition);
            },
            Some(end) => end,
        };
        let event = channel_close_init(&self.port_id, &self.channel_id, &end);
        state.channels.insert((self.port_id.duplicate(), self.channel_id.duplicate()), end);
        Ok(Outcome::single(event, hook(&self.port_id, Stage::ChannelCloseInit)))
    }
}

/// Closes an open channel after the counterparty has closed its end.
#[derive(Clone, Debug, PartialEq, Eq)]
pub struct MsgChannelCloseConfirm {
    pub port_id: PortId,
    /// The channel end on this chain.
    pub channel_id: ChannelId,
    /// Proof that the counterparty holds its channel end in `Closed`.
    pub proof: Vec<u8>,
    pub proof_height: Height,
}

impl MsgChannelCloseConfirm {
    /// The channel end after the step.
    pub open spec fn new_end(&self, state: ChainStateView) -> ChannelEndView {
        advanced_end_view(
            state.channels[(self.port_id@, self.channel_id@)],
            ChannelState::Closed,
            None,
        )
    }

    /// What the state must hold for the step, the collaborators aside.
    pub open spec fn admissible(&self, state: ChainStateView) -> Result<(), Error> {
        channel_step_admissible(
            state,
            self.port_id@,
            self.channel_id@,
            ChannelState::Open,
            true,
            Some(self.proof_height),
        )
    }

    fn check_admissible(&self, state: &ChainState) -> (result: Result<(), Error>)
        ensures
            result == self.admissible(state@),
    {
        check_channel_step(
            state,
            &self.port_id,
            &self.channel_id,
            ChannelState::Open,
            true,
            Some(self.proof_height),
        )
    }
}

impl ActionHandler for MsgChannelCloseConfirm {
    open spec fn stateless_result(&self) -> Result<(), Error> {
        well_formed(
            valid_identifier(self.port_id@) && valid_identifier(self.channel_id@) && proof_well_formed(
                self.proof@,
                self.proof_height,
            ),
        )
    }

    open spec fn proof_request_of(&self, state: ChainStateView) -> Option<ProofRequestView> {
        if self.admissible(state) is Ok {
            Some(
                channel_request_view(
                    state,
                    self.port_id@,
                    self.channel_id@,
                    state.channels[(self.port_id@, self.channel_id@)].counterparty.channel_id->0,
                    ChannelState::Closed,
                    self.proof_height,
                ),
            )
        } else {
            None
        }
    }

    open spec fn stateful_result(&self, state: ChainStateView, evidence: Evidence) -> Result<
        (),
        Error,
    > {
        match self.admissible(state) {
            Err(error) => Err(error),
            Ok(()) => collaborators_agree(true, evidence),
        }
    }

    open spec fn applied(&self, state: ChainStateView, evidence: Evidence) -> ChainStateView {
        with_channel(state, self.port_id@, self.channel_id@, self.new_end(state))
    }

    open spec fn outcome_of(&self, state: ChainStateView, evidence: Evidence) -> OutcomeView {
        OutcomeView {
            events: seq![
                channel_event_view(
                    "channel_close_confirm"@,
                    self.port_id@,
                    self.channel_id@,
                    self.new_end(state),
                ),
            ],
            callback: hook_call(self.port_id@, Stage::ChannelCloseConfirm),
        }
    }

    fn check_stateless(&self, context: &Transaction) -> (result: Result<(), Error>) {
        if self.port_id.is_valid() && self.channel_id.is_valid() && check_proof_well_formed(
            &self.proof,
            &self.proof_height,
        ) {
            Ok(())
        } else {
            Err(Error::MalformedAction)
        }
    }

    fn proof_request(&self, state: &ChainState) -> (request: Option<ProofRequest>) {
        match self.check_admissible(state) {
            Err(_) => None,
            Ok(()) => {
                let key = (self.port_id.duplicate(), self.channel_id.duplicate());
                match state.channels.get(&key) {
                    None => None,
                    Some(channel) => {
                        match &channel.counterparty.channel_id {
                            None => None,
                            Some(counterparty_channel_id) => channel_request(
                                state,
                                &self.port_id,
                                &self.channel_id,
                                counterparty_channel_id,
                                ChannelState::Closed,
                                self.proof_height,
                            ),
                        }
                    },
                }
            },
        }
    }

    fn check_stateful(&self, state: &ChainState, evidence: &Evidence) -> (result: Result<
        (),
        Error,
    >) {
        match self.check_admissible(state) {
            Err(error) => Err(error),
            Ok(()) => check_collaborators_agree(true, evidence),
        }
    }

    fn execute(&self, state: &mut ChainState, evidence: &Evidence) -> (result: Result<
        Outcome,
        Error,
    >) {
        match self.check_stateful(state, evidence) {
            Err(error) => {
                return Err(error);
            },
            Ok(()) => {},
        }
        let end = match advanced_end(
            state,
            &self.port_id,
            &self.channel_id,
            ChannelState::Closed,
            None,
        ) {
            None => {
                return Err(Error::InvalidStateTransition);
            },
            Some(end) => end,
        };
        let event = channel_close_confirm(&self.port_id, &self.channel_id, &end);
        state.channels.insert((self.port_id.duplicate(), self.channel_id.duplicate()), end);
        Ok(Outcome::single(event, hook(&self.port_id, Stage::ChannelCloseConfirm)))
    }
}

} // verus!
