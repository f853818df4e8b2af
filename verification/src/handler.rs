//! The contract that every action meets: a stateless check, a stateful
//! check against a snapshot, and execution.
//!
//! Two collaborators stand outside this crate: the light client, which
//! verifies proofs of the counterparty's state, and the application bound
//! to a port. What they decided about an action comes in as `Evidence`;
//! what they are to verify goes out as a `ProofRequest`, and which hook to
//! call after execution as an `AppCall`.

use vstd::prelude::*;
use crate::action::Transaction;
use crate::error::Error;
use crate::event::{Event, EventView};
use crate::ident::{ChannelId, ClientId, ConnectionId, PortId};
use crate::router::AppCall;
use crate::state::{ChainState, ChainStateView};
use crate::types::{ChannelEnd, ChannelEndView, ConnectionEnd, ConnectionEndView, Height};

verus! {

/// A statement about the counterparty's state, for the light client to
/// verify against the proof that an action carries.
#[derive(Clone, Debug, PartialEq, Eq)]
pub enum Claim {
    /// The counterparty holds this connection end under this identifier.
    Connection { connection_id: ConnectionId, connection_end: ConnectionEnd },
    /// The counterparty holds this channel end under this port and
    /// identifier.
    Channel { port_id: PortId, channel_id: ChannelId, channel_end: ChannelEnd },
    /// The counterparty holds this commitment for the packet.
    PacketCommitment { port_id: PortId, channel_id: ChannelId, sequence: u64, commitment: Vec<u8> },
    /// The counterparty holds this acknowledgement for the packet.
    PacketAcknowledgement {
        port_id: PortId,
        channel_id: ChannelId,
        sequence: u64,
        acknowledgement: Vec<u8>,
    },
    /// The counterparty holds no receipt for the packet.
    PacketReceiptAbsent { port_id: PortId, channel_id: ChannelId, sequence: u64 },
}

pub enum ClaimView {
    Connection { connection_id: Seq<char>, connection_end: ConnectionEndView },
    Channel { port_id: Seq<char>, channel_id: Seq<char>, channel_end: ChannelEndView },
    PacketCommitment {
        port_id: Seq<char>,
        channel_id: Seq<char>,
        sequence: u64,
        commitment: Seq<u8>,
    },
    PacketAcknowledgement {
        port_id: Seq<char>,
        channel_id: Seq<char>,
        sequence: u64,
        acknowledgement: Seq<u8>,
    },
    PacketReceiptAbsent { port_id: Seq<char>, channel_id: Seq<char>, sequence: u64 },
}

impl View for Claim {
    type V = ClaimView;

    open spec fn view(&self) -> ClaimView {
        match self {
            Claim::Connection { connection_id, connection_end } => ClaimView::Connection {
                connection_id: connection_id@,
                connection_end: connection_end@,
            },
            Claim::Channel { port_id, channel_id, channel_end } => ClaimView::Channel {
                port_id: port_id@,
                channel_id: channel_id@,
                channel_end: channel_end@,
            },
            Claim::PacketCommitment {
                port_id,
                channel_id,
                sequence,
                commitment,
            } => ClaimView::PacketCommitment {
                port_id: port_id@,
                channel_id: channel_id@,
                sequence: *sequence,
                commitment: commitment@,
            },
            Claim::PacketAcknowledgement {
                port_id,
                channel_id,
                sequence,
                acknowledgement,
            } => ClaimView::PacketAcknowledgement {
                port_id: port_id@,
                channel_id: channel_id@,
                sequence: *sequence,
                acknowledgement: acknowledgement@,
            },
            Claim::PacketReceiptAbsent {
                port_id,
                channel_id,
                sequence,
            } => ClaimView::PacketReceiptAbsent {
                port_id: port_id@,
                channel_id: channel_id@,
                sequence: *sequence,
            },
        }
    }
}

/// What the light client is asked: does the action's proof show `claim`
/// against the consensus state that client `client_id` holds for `height`?
#[derive(Clone, Debug, PartialEq, Eq)]
pub struct ProofRequest {
    pub client_id: ClientId,
    pub height: Height,
    pub claim: Claim,
}

pub struct ProofRequestView {
    pub client_id: Seq<char>,
    pub height: Height,
    pub claim: ClaimView,
}

impl View for ProofRequest {
    type V = ProofRequestView;

    open spec fn view(&self) -> ProofRequestView {
        ProofRequestView { client_id: self.client_id@, height: self.height, claim: self.claim@ }
    }
}

/// The view of an optional proof request.
pub open spec fn request_view(request: Option<ProofRequest>) -> Option<ProofRequestView> {
    match request {
        Some(request) => Some(request@),
        None => None,
    }
}

/// What the collaborators decided about one action.
#[derive(Clone, Debug, PartialEq, Eq)]
pub struct Evidence {
    /// The light client accepted the action's proof for the claim of the
    /// action's proof request.
    pub proof_verified: bool,
    /// The time of the consensus state that the light client holds for the
    /// proof height, in nanoseconds since the Unix epoch.
    pub consensus_timestamp: u64,
    /// The check hook of the application bound to the port accepted the
    /// step.
    pub app_accepts: bool,
    /// The acknowledgement that the application wrote for a received packet.
    pub acknowledgement: Vec<u8>,
}

impl Evidence {
    /// Evidence in which every collaborator agreed, with no time and no
    /// acknowledgement.
    pub fn agreed() -> (evidence: Evidence)
        ensures
            evidence.proof_verified,
            evidence.app_accepts,
            evidence.consensus_timestamp == 0,
            evidence.acknowledgement@ == Seq::<u8>::empty(),
    {
        Evidence {
            proof_verified: true,
            consensus_timestamp: 0,
            app_accepts: true,
            acknowledgement: Vec::new(),
        }
    }
}

/// What executing an action leaves for the caller: the events to emit, in
/// order, and the application hook to call.
#[derive(Clone, Debug, PartialEq, Eq)]
pub struct Outcome {
    pub events: Vec<Event>,
    pub callback: Option<AppCall>,
}

pub struct OutcomeView {
    pub events: Seq<EventView>,
    pub callback: Option<AppCall>,
}

impl View for Outcome {
    type V = OutcomeView;

    open spec fn view(&self) -> OutcomeView {
        OutcomeView {
            events: self.events@.map_values(|e: Event| e@),
            callback: self.callback,
        }
    }
}

impl Outcome {
    /// The outcome with one event.
    pub fn single(event: Event, callback: Option<AppCall>) -> (outcome: Outcome)
        ensures
            outcome@ == (OutcomeView { events: seq![event@], callback }),
    {
        let mut events: Vec<Event> = Vec::new();
        events.push(event);
        let outcome = Outcome { events, callback };
        assert(outcome@.events =~= seq![event@]);
        outcome
    }

    /// The outcome with two events.
    pub fn pair(first: Event, second: Event, callback: Option<AppCall>) -> (outcome: Outcome)
        ensures
            outcome@ == (OutcomeView { events: seq![first@, second@], callback }),
    {
        let mut events: Vec<Event> = Vec::new();
        events.push(first);
        events.push(second);
        let outcome = Outcome { events, callback };
        assert(outcome@.events =~= seq![first@, second@]);
        outcome
    }
}

/// The three phases of an action.
///
/// `check_stateless` reads the action alone. `check_stateful` reads a
/// snapshot of the state and changes nothing. `execute` decides as the
/// stateful check does on the state it is given, and changes the state only
/// where that check passes.
pub trait ActionHandler {
    /// What the stateless check answers.
    spec fn stateless_result(&self) -> Result<(), Error>;

    /// What the action asks the light client to verify, where it carries a
    /// proof and the state holds what the claim is made from.
    spec fn proof_request_of(&self, state: ChainStateView) -> Option<ProofRequestView>;

    /// What the stateful check answers in a state, given the evidence.
    spec fn stateful_result(&self, state: ChainStateView, evidence: Evidence) -> Result<(), Error>;

    /// The state after the action, where the stateful check passes.
    spec fn applied(&self, state: ChainStateView, evidence: Evidence) -> ChainStateView;

    /// The events and the hook call of the action, where the stateful check
    /// passes.
    spec fn outcome_of(&self, state: ChainStateView, evidence: Evidence) -> OutcomeView;

    fn check_stateless(&self, context: &Transaction) -> (result: Result<(), Error>)
        ensures
            result == self.stateless_result(),
    ;

    fn proof_request(&self, state: &ChainState) -> (request: Option<ProofRequest>)
        ensures
            request_view(request) == self.proof_request_of(state@),
    ;

    fn check_stateful(&self, state: &ChainState, evidence: &Evidence) -> (result: Result<(), Error>)
        ensures
            result == self.stateful_result(state@, *evidence),
    ;

    fn execute(&self, state: &mut ChainState, evidence: &Evidence) -> (result: Result<
        Outcome,
        Error,
    >)
        ensures
            match result {
                Ok(outcome) => {
                    &&& self.stateful_result(old(state)@, *evidence) is Ok
                    &&& final(state)@ == self.applied(old(state)@, *evidence)
                    &&& outcome@ == self.outcome_of(old(state)@, *evidence)
                },
                Err(error) => {
                    &&& self.stateful_result(old(state)@, *evidence) == Err::<(), Error>(error)
                    &&& final(state)@ == old(state)@
                },
            },
    ;
}

} // verus!
