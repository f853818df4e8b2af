//! The connection handshake: Init and Ack on the chain that opens, Try and
//! Confirm on the chain that answers.

use vstd::prelude::*;
use crate::action::Transaction;
use crate::error::Error;
use crate::event::{
    connection_attributes, connection_open_ack, connection_open_confirm, connection_open_init,
    connection_open_try, EventView,
};
use crate::handler::{
    ActionHandler, Claim, ClaimView, Evidence, Outcome, OutcomeView, ProofRequest, ProofRequestView,
};
use crate::ident::{valid_identifier, ClientId, ConnectionId};
use crate::state::{ChainState, ChainStateView};
use crate::types::{
    ConnectionCounterparty, ConnectionCounterpartyView, ConnectionEnd, ConnectionEndView,
    ConnectionState, Height, Version, SUPPORTED_VERSION,
};

verus! {

/// Every version of the list is one this chain speaks.
pub open spec fn all_supported(versions: Seq<Version>) -> bool {
    forall|i: int| 0 <= i < versions.len() ==> #[trigger] versions[i] == SUPPORTED_VERSION
}

pub fn check_all_supported(versions: &Vec<Version>) -> (ok: bool)
    ensures
        ok == all_supported(versions@),
{
    let mut i: usize = 0;
    while i < versions.len()
        invariant
            i <= versions@.len(),
            forall|j: int| 0 <= j < i ==> #[trigger] versions@[j] == SUPPORTED_VERSION,
        decreases versions@.len() - i,
    {
        if versions[i] != SUPPORTED_VERSION {
            return false;
        }
        i += 1;
    }
    true
}

pub fn has_version(versions: &Vec<Version>, version: Version) -> (found: bool)
    ensures
        found == versions@.contains(version),
{
    let mut i: usize = 0;
    while i < versions.len()
        invariant
            i <= versions@.len(),
            forall|j: int| 0 <= j < i ==> versions@[j] != version,
        decreases versions@.len() - i,
    {
        if versions[i] == version {
            return true;
        }
        i += 1;
    }
    false
}

/// A proof is present and says which height it is for.
pub open spec fn proof_well_formed(proof: Seq<u8>, proof_height: Height) -> bool {
    proof.len() > 0 && !proof_height.is_zero()
}

pub fn check_proof_well_formed(proof: &Vec<u8>, proof_height: &Height) -> (ok: bool)
    ensures
        ok == proof_well_formed(proof@, *proof_height),
{
    proof.len() > 0 && !proof_height.has_no_height()
}

/// The answer for a well-formedness condition.
pub open spec fn well_formed(ok: bool) -> Result<(), Error> {
    if ok {
        Ok(())
    } else {
        Err(Error::MalformedAction)
    }
}

/// Whether a client can stand behind a proof for a height: the client
/// must exist, and the height must not be beyond the latest that it trusts.
pub open spec fn client_covers(state: ChainStateView, client_id: Seq<char>, height: Height) -> Result<
    (),
    Error,
> {
    if !state.clients.contains_key(client_id) {
        Err(Error::InvalidStateTransition)
    } else if !height.at_most(state.clients[client_id].latest_height) {
        Err(Error::ProofVerificationFailure)
    } else {
        Ok(())
    }
}

pub fn check_client_covers(state: &ChainState, client_id: &ClientId, height: &Height) -> (result:
    Result<(), Error>)
    ensures
        result == client_covers(state@, client_id@, *height),
{
    match state.clients.get(client_id) {
        None => Err(Error::InvalidStateTransition),
        Some(client) => {
            if height.is_at_most(&client.latest_height) {
                Ok(())
            } else {
                Err(Error::ProofVerificationFailure)
            }
        },
    }
}

/// The light client's verdict on the proof.
pub open spec fn proof_accepted(evidence: Evidence) -> Result<(), Error> {
    if evidence.proof_verified {
        Ok(())
    } else {
        Err(Error::ProofVerificationFailure)
    }
}

/// The event of a connection handshake step.
pub open spec fn connection_event_view(
    kind: Seq<char>,
    connection_id: Seq<char>,
    end: ConnectionEndView,
) -> EventView {
    EventView {
        kind,
        attributes: connection_attributes(connection_id, end.client_id, end.counterparty),
    }
}

/// Opens a connection on this chain: the first step of the handshake.
#[derive(Clone, Debug, PartialEq, Eq)]
pub struct MsgConnectionOpenInit {
    /// The identifier chosen for the connection end on this chain.
    pub connection_id: ConnectionId,
    /// This chain's client of the counterparty.
    pub client_id: ClientId,
    /// The counterparty's client of this chain.
    pub counterparty_client_id: ClientId,
    /// The versions proposed.
    pub versions: Vec<Version>,
}

impl MsgConnectionOpenInit {
    /// The connection end that the step creates.
    pub open spec fn new_end(&self) -> ConnectionEndView {
        ConnectionEndView {
            state: ConnectionState::Init,
            client_id: self.client_id@,
            counterparty: ConnectionCounterpartyView {
                client_id: self.counterparty_client_id@,
                connection_id: None,
            },
            versions: self.versions@,
        }
    }
}

impl ActionHandler for MsgConnectionOpenInit {
    open spec fn stateless_result(&self) -> Result<(), Error> {
        well_formed(
            valid_identifier(self.connection_id@) && valid_identifier(self.client_id@)
                && valid_identifier(self.counterparty_client_id@) && self.versions@.len() > 0
                && all_supported(self.versions@),
        )
    }

    open spec fn proof_request_of(&self, state: ChainStateView) -> Option<ProofRequestView> {
        None
    }

    open spec fn stateful_result(&self, state: ChainStateView, evidence: Evidence) -> Result<
        (),
        Error,
    > {
        if !state.clients.contains_key(self.client_id@) {
            Err(Error::InvalidStateTransition)
        } else if state.connections.contains_key(self.connection_id@) {
            Err(Error::InvalidStateTransition)
        } else {
            Ok(())
        }
    }

    open spec fn applied(&self, state: ChainStateView, evidence: Evidence) -> ChainStateView {
        ChainStateView {
            connections: state.connections.insert(self.connection_id@, self.new_end()),
            ..state
        }
    }

    open spec fn outcome_of(&self, state: ChainStateView, evidence: Evidence) -> OutcomeView {
        OutcomeView {
            events: seq![
                connection_event_view(
                    "connection_open_init"@,
                    self.connection_id@,
                    self.new_end(),
                ),
            ],
            callback: None,
        }
    }

    fn check_stateless(&self, context: &Transaction) -> (result: Result<(), Error>) {
        if self.connection_id.is_valid() && self.client_id.is_valid()
            && self.counterparty_client_id.is_valid() && self.versions.len() > 0
            && check_all_supported(&self.versions) {
            Ok(())
        } else {
            Err(Error::MalformedAction)
        }
    }

    fn proof_request(&self, state: &ChainState) -> (request: Option<ProofRequest>) {
        None
    }

    fn check_stateful(&self, state: &ChainState, evidence: &Evidence) -> (result: Result<
        (),
        Error,
    >) {
        if !state.clients.contains(&self.client_id) {
            Err(Error::InvalidStateTransition)
        } else if state.connections.contains(&self.connection_id) {
            Err(Error::InvalidStateTransition)
        } else {
            Ok(())
        }
    }

    fn execute(&self, state: &mut ChainState, evidence: &Evidence) -> (result: Result<
        Outcome,
        Error,
    >) {
        match self.check_stateful(state, evidence) {
            Err(error) => {
                return Err(error);
            },
            Ok(()) => {},
        }
        let end = ConnectionEnd {
            state: ConnectionState::Init,
            client_id: self.client_id.duplicate(),
            counterparty: ConnectionCounterparty {
                client_id: self.counterparty_client_id.duplicate(),
                connection_id: None,
            },
            versions: self.versions.clone(),
        };
        let event = connection_open_init(&self.connection_id, &end.client_id, &end.counterparty);
        state.connections.insert(self.connection_id.duplicate(), end);
        Ok(Outcome::single(event, None))
    }
}

/// Answers a connection opened on the counterparty: the second step of the
/// handshake.
#[derive(Clone, Debug, PartialEq, Eq)]
pub struct MsgConnectionOpenTry {
    /// The identifier proposed for the connection end on this chain.
    pub connection_id: ConnectionId,
    /// This chain's client of the counterparty.
    pub client_id: ClientId,
    /// The counterparty's client of this chain.
    pub counterparty_client_id: ClientId,
    /// The counterparty's connection end.
    pub counterparty_connection_id: ConnectionId,
    /// The versions that the counterparty proposed.
    pub counterparty_versions: Vec<Version>,
    /// Proof that the counterparty holds its connection end in `Init`.
    pub proof: Vec<u8>,
    pub proof_height: Height,
}

impl MsgConnectionOpenTry {
    /// The connection end that the step creates.
    pub open spec fn new_end(&self) -> ConnectionEndView {
        ConnectionEndView {
            state: ConnectionState::TryOpen,
            client_id: self.client_id@,
            counterparty: ConnectionCounterpartyView {
                client_id: self.counterparty_client_id@,
                connection_id: Some(self.counterparty_connection_id@),
            },
            versions: seq![SUPPORTED_VERSION],
        }
    }

    /// The connection end that the counterparty must be shown to hold.
    pub open spec fn expected_end(&self) -> ConnectionEndView {
        ConnectionEndView {
            state: ConnectionState::Init,
            client_id: self.counterparty_client_id@,
            counterparty: ConnectionCounterpartyView {
                client_id: self.client_id@,
                connection_id: None,
            },
            versions: self.counterparty_versions@,
        }
    }

    /// What the state must hold for the step, the proof aside.
    pub open spec fn admissible(&self, state: ChainStateView) -> Result<(), Error> {
        if state.connections.contains_key(self.connection_id@) {
            Err(Error::InvalidStateTransition)
        } else {
            client_covers(state, self.client_id@, self.proof_height)
        }
    }

    fn check_admissible(&self, state: &ChainState) -> (result: Result<(), Error>)
        ensures
            result == self.admissible(state@),
    {
        if state.connections.contains(&self.connection_id) {
            Err(Error::InvalidStateTransition)
        } else {
            check_client_covers(state, &self.client_id, &self.proof_height)
        }
    }
}

impl ActionHandler for MsgConnectionOpenTry {
    open spec fn stateless_result(&self) -> Result<(), Error> {
        well_formed(
            valid_identifier(self.connection_id@) && valid_identifier(self.client_id@)
                && valid_identifier(self.counterparty_client_id@) && valid_identifier(
                self.counterparty_connection_id@,
            ) && self.counterparty_versions@.contains(SUPPORTED_VERSION) && proof_well_formed(
                self.proof@,
                self.proof_height,
            ),
        )
    }

    open spec fn proof_request_of(&self, state: ChainStateView) -> Option<ProofRequestView> {
        if self.admissible(state) is Ok {
            Some(
                ProofRequestView {
                    client_id: self.client_id@,
                    height: self.proof_height,
                    claim: ClaimView::Connection {
                        connection_id: self.counterparty_connection_id@,
                        connection_end: self.expected_end(),
                    },
                },
            )
        } else {
            None
        }
    }

    open spec fn stateful_result(&self, state: ChainStateView, evidence: Evidence) -> Result<
        (),
        Error,
    > {
        match self.admissible(state) {
            Err(error) => Err(error),
            Ok(()) => proof_accepted(evidence),
        }
    }

    open spec fn applied(&self, state: ChainStateView, evidence: Evidence) -> ChainStateView {
        ChainStateView {
            connections: state.connections.insert(self.connection_id@, self.new_end()),
            ..state
        }
    }

    open spec fn outcome_of(&self, state: ChainStateView, evidence: Evidence) -> OutcomeView {
        OutcomeView {
            events: seq![
                connection_event_view("connection_open_try"@, self.connection_id@, self.new_end()),
            ],
            callback: None,
        }
    }

    fn check_stateless(&self, context: &Transaction) -> (result: Result<(), Error>) {
        if self.connection_id.is_valid() && self.client_id.is_valid()
            && self.counterparty_client_id.is_valid() && self.counterparty_connection_id.is_valid()
            && has_version(&self.counterparty_versions, SUPPORTED_VERSION)
            && check_proof_well_formed(&self.proof, &self.proof_height) {
            Ok(())
        } else {
            Err(Error::MalformedAction)
        }
    }

    fn proof_request(&self, state: &ChainState) -> (request: Option<ProofRequest>) {
        match self.check_admissible(state) {
            Err(_) => None,
            Ok(()) => Some(
                ProofRequest {
                    client_id: self.client_id.duplicate(),
                    height: self.proof_height,
                    claim: Claim::Connection {
                        connection_id: self.counterparty_connection_id.duplicate(),
                        connection_end: ConnectionEnd {
                            state: ConnectionState::Init,
                            client_id: self.counterparty_client_id.duplicate(),
                            counterparty: ConnectionCounterparty {
                                client_id: self.client_id.duplicate(),
                                connection_id: None,
                            },
                            versions: self.counterparty_versions.clone(),
                        },
                    },
                },
            ),
        }
    }

    fn check_stateful(&self, state: &ChainState, evidence: &Evidence) -> (result: Result<
        (),
        Error,
    >) {
        match self.check_admissible(state) {
            Err(error) => Err(error),
            Ok(()) => {
                if evidence.proof_verified {
                    Ok(())
                } else {
                    Err(Error::ProofVerificationFailure)
                }
            },
        }
    }

    fn execute(&self, state: &mut ChainState, evidence: &Evidence) -> (result: Result<
        Outcome,
        Error,
    >) {
        match self.check_stateful(state, evidence) {
            Err(error) => {
                return Err(error);
            },
            Ok(()) => {},
        }
        let mut versions: Vec<Version> = Vec::new();
        versions.push(SUPPORTED_VERSION);
        assert(versions@ =~= seq![SUPPORTED_VERSION]);
        let end = ConnectionEnd {
            state: ConnectionState::TryOpen,
            client_id: self.client_id.duplicate(),
            counterparty: ConnectionCounterparty {
                client_id: self.counterparty_client_id.duplicate(),
                connection_id: Some(self.counterparty_connection_id.duplicate()),
            },
            versions,
        };
        let event = connection_open_try(&self.connection_id, &end.client_id, &end.counterparty);
        state.connections.insert(self.connection_id.duplicate(), end);
        Ok(Outcome::single(event, None))
    }
}

/// Completes the handshake on the chain that opened the connection: the
/// third step.
#[derive(Clone, Debug, PartialEq, Eq)]
pub struct MsgConnectionOpenAck {
    /// The connection end on this chain.
    pub connection_id: ConnectionId,
    /// The connection end that the counterparty created in its Try step.
    pub counterparty_connection_id: ConnectionId,
    /// The version that the counterparty picked.
    pub version: Version,
    /// Proof that the counterparty holds its connection end in `TryOpen`.
    pub proof: Vec<u8>,
    pub proof_height: Height,
}

impl MsgConnectionOpenAck {
    /// The connection end after the step, given the end before it.
    pub open spec fn new_end(&self, end: ConnectionEndView) -> ConnectionEndView {
        ConnectionEndView {
            state: ConnectionState::Open,
            client_id: end.client_id,
            counterparty: ConnectionCounterpartyView {
                client_id: end.counterparty.client_id,
                connection_id: Some(self.counterparty_connection_id@),
            },
            versions: seq![self.version],
        }
    }

    /// The connection end that the counterparty must be shown to hold.
    pub open spec fn expected_end(&self, end: ConnectionEndView) -> ConnectionEndView {
        ConnectionEndView {
            state: ConnectionState::TryOpen,
            client_id: end.counterparty.client_id,
            counterparty: ConnectionCounterpartyView {
                client_id: end.client_id,
                connection_id: Some(self.connection_id@),
            },
            versions: seq![self.version],
        }
    }

    /// What the state must hold for the step, the proof aside.
    pub open spec fn admissible(&self, state: ChainStateView) -> Result<(), Error> {
        if !state.connections.contains_key(self.connection_id@) {
            Err(Error::InvalidStateTransition)
        } else {
            let end = state.connections[self.connection_id@];
            if end.state != ConnectionState::Init {
                Err(Error::InvalidStateTransition)
            } else if !end.versions.contains(self.version) {
                Err(Error::InvalidStateTransition)
            } else {
                client_covers(state, end.client_id, self.proof_height)
            }
        }
    }

    fn check_admissible(&self, state: &ChainState) -> (result: Result<(), Error>)
        ensures
            result == self.admissible(state@),
    {
        match state.connections.get(&self.connection_id) {
            None => Err(Error::InvalidStateTransition),
            Some(end) => {
                if !matches!(end.state, ConnectionState::Init) {
                    Err(Error::InvalidStateTransition)
                } else if !has_version(&end.versions, self.version) {
                    Err(Error::InvalidStateTransition)
                } else {
                    check_client_covers(state, &end.client_id, &self.proof_height)
                }
            },
        }
    }
}

impl ActionHandler for MsgConnectionOpenAck {
    open spec fn stateless_result(&self) -> Result<(), Error> {
        well_formed(
            valid_identifier(self.connection_id@) && valid_identifier(
                self.counterparty_connection_id@,
            ) && self.version == SUPPORTED_VERSION && proof_well_formed(
                self.proof@,
                self.proof_height,
            ),
        )
    }

    open spec fn proof_request_of(&self, state: ChainStateView) -> Option<ProofRequestView> {
        if self.admissible(state) is Ok {
            let end = state.connections[self.connection_id@];
            Some(
                ProofRequestView {
                    client_id: end.client_id,
                    height: self.proof_height,
                    claim: ClaimView::Connection {
                        connection_id: self.counterparty_connection_id@,
                        connection_end: self.expected_end(end),
                    },
                },
            )
        } else {
            None
        }
    }

    open spec fn stateful_result(&self, state: ChainStateView, evidence: Evidence) -> Result<
        (),
        Error,
    > {
        match self.admissible(state) {
            Err(error) => Err(error),
            Ok(()) => proof_accepted(evidence),
        }
    }

    open spec fn applied(&self, state: ChainStateView, evidence: Evidence) -> ChainStateView {
        ChainStateView {
            connections: state.connections.insert(
                self.connection_id@,
                self.new_end(state.connections[self.connection_id@]),
            ),
            ..state
        }
    }

    open spec fn outcome_of(&self, state: ChainStateView, evidence: Evidence) -> OutcomeView {
        OutcomeView {
            events: seq![
                connection_event_view(
                    "connection_open_ack"@,
                    self.connection_id@,
                    self.new_end(state.connections[self.connection_id@]),
                ),
            ],
            callback: None,
        }
    }

    fn check_stateless(&self, context: &Transaction) -> (result: Result<(), Error>) {
        if self.connection_id.is_valid() && self.counterparty_connection_id.is_valid()
            && self.version == SUPPORTED_VERSION && check_proof_well_formed(
            &self.proof,
            &self.proof_height,
        ) {
            Ok(())
        } else {
            Err(Error::MalformedAction)
        }
    }

    fn proof_request(&self, state: &ChainState) -> (request: Option<ProofRequest>) {
        match self.check_admissible(state) {
            Err(_) => None,
            Ok(()) => {
                match state.connections.get(&self.connection_id) {
                    None => None,
                    Some(end) => {
                        let mut versions: Vec<Version> = Vec::new();
                        versions.push(self.version);
                        assert(versions@ =~= seq![self.version]);
                        Some(
                            ProofRequest {
                                client_id: end.client_id.duplicate(),
                                height: self.proof_height,
                                claim: Claim::Connection {
                                    connection_id: self.counterparty_connection_id.duplicate(),
                                    connection_end: ConnectionEnd {
                                        state: ConnectionState::TryOpen,
                                        client_id: end.counterparty.client_id.duplicate(),
                                        counterparty: ConnectionCounterparty {
                                            client_id: end.client_id.duplicate(),
                                            connection_id: Some(self.connection_id.duplicate()),
                                        },
                                        versions,
                                    },
                                },
                            },
                        )
                    },
                }
            },
        }
    }

    fn check_stateful(&self, state: &ChainState, evidence: &Evidence) -> (result: Result<
        (),
        Error,
    >) {
        match self.check_admissible(state) {
            Err(error) => Err(error),
            Ok(()) => {
                if evidence.proof_verified {
                    Ok(())
                } else {
                    Err(Error::ProofVerificationFailure)
                }
            },
        }
    }

    fn execute(&self, state: &mut ChainState, evidence: &Evidence) -> (result: Result<
        Outcome,
        Error,
    >) {
        match self.check_stateful(state, evidence) {
            Err(error) => {
                return Err(error);
            },
            Ok(()) => {},
        }
        let end = match state.connections.get(&self.connection_id) {
            None => {
                return Err(Error::InvalidStateTransition);
            },
            Some(end) => {
                let mut versions: Vec<Version> = Vec::new();
                versions.push(self.version);
                assert(versions@ =~= seq![self.version]);
                ConnectionEnd {
                    state: ConnectionState::Open,
                    client_id: end.client_id.duplicate(),
                    counterparty: ConnectionCounterparty {
                        client_id: end.counterparty.client_id.duplicate(),
                        connection_id: Some(self.counterparty_connection_id.duplicate()),
                    },
                    versions,
                }
            },
        };
        let event = connection_open_ack(&self.connection_id, &end);
        state.connections.insert(self.connection_id.duplicate(), end);
        Ok(Outcome::single(event, None))
    }
}

/// Completes the handshake on the chain that answered: the fourth step.
#[derive(Clone, Debug, PartialEq, Eq)]
pub struct MsgConnectionOpenConfirm {
    /// The connection end on this chain.
    pub connection_id: ConnectionId,
    /// Proof that the counterparty holds its connection end in `Open`.
    pub proof: Vec<u8>,
    pub proof_height: Height,
}

impl MsgConnectionOpenConfirm {
    /// The connection end after the step, given the end before it.
    pub open spec fn new_end(&self, end: ConnectionEndView) -> ConnectionEndView {
        ConnectionEndView { state: ConnectionState::Open, ..end }
    }

    /// The connection end that the counterparty must be shown to hold.
    pub open spec fn expected_end(&self, end: ConnectionEndView) -> ConnectionEndView {
        ConnectionEndView {
            state: ConnectionState::Open,
            client_id: end.counterparty.client_id,
            counterparty: ConnectionCounterpartyView {
                client_id: end.client_id,
                connection_id: Some(self.connection_id@),
            },
            versions: end.versions,
        }
    }

    /// What the state must hold for the step, the proof aside.
    pub open spec fn admissible(&self, state: ChainStateView) -> Result<(), Error> {
        if !state.connections.contains_key(self.connection_id@) {
            Err(Error::InvalidStateTransition)
        } else {
            let end = state.connections[self.connection_id@];
            if end.state != ConnectionState::TryOpen {
                Err(Error::InvalidStateTransition)
            } else if end.counterparty.connection_id is None {
                Err(Error::InvalidStateTransition)
            } else {
                client_covers(state, end.client_id, self.proof_height)
            }
        }
    }

    fn check_admissible(&self, state: &ChainState) -> (result: Result<(), Error>)
        ensures
            result == self.admissible(state@),
    {
        match state.connections.get(&self.connection_id) {
            None => Err(Error::InvalidStateTransition),
            Some(end) => {
                if !matches!(end.state, ConnectionState::TryOpen) {
                    Err(Error::InvalidStateTransition)
                } else if end.counterparty.connection_id.is_none() {
                    Err(Error::InvalidStateTransition)
                } else {
                    check_client_covers(state, &end.client_id, &self.proof_height)
                }
            },
        }
    }
}

impl ActionHandler for MsgConnectionOpenConfirm {
    open spec fn stateless_result(&self) -> Result<(), Error> {
        well_formed(
            valid_identifier(self.connection_id@) && proof_well_formed(
                self.proof@,
                self.proof_height,
            ),
        )
    }

    open spec fn proof_request_of(&self, state: ChainStateView) -> Option<ProofRequestView> {
        if self.admissible(state) is Ok {
            let end = state.connections[self.connection_id@];
            Some(
                ProofRequestView {
                    client_id: end.client_id,
                    height: self.proof_height,
                    claim: ClaimView::Connection {
                        connection_id: end.counterparty.connection_id->0,
                        connection_end: self.expected_end(end),
                    },
                },
            )
        } else {
            None
        }
    }

    open spec fn stateful_result(&self, state: ChainStateView, evidence: Evidence) -> Result<
        (),
        Error,
    > {
        match self.admissible(state) {
            Err(error) => Err(error),
            Ok(()) => proof_accepted(evidence),
        }
    }

    open spec fn applied(&self, state: ChainStateView, evidence: Evidence) -> ChainStateView {
        ChainStateView {
            connections: state.connections.insert(
                self.connection_id@,
                self.new_end(state.connections[self.connection_id@]),
            ),
            ..state
        }
    }

    open spec fn outcome_of(&self, state: ChainStateView, evidence: Evidence) -> OutcomeView {
        OutcomeView {
            events: seq![
                connection_event_view(
                    "connection_open_confirm"@,
                    self.connection_id@,
                    self.new_end(state.connections[self.connection_id@]),
                ),
            ],
            callback: None,
        }
    }

    fn check_stateless(&self, context: &Transaction) -> (result: Result<(), Error>) {
        if self.connection_id.is_valid() && check_proof_well_formed(&self.proof, &self.proof_height) {
            Ok(())
        } else {
            Err(Error::MalformedAction)
        }
    }

    fn proof_request(&self, state: &ChainState) -> (request: Option<ProofRequest>) {
        match self.check_admissible(state) {
            Err(_) => None,
            Ok(()) => {
                match state.connections.get(&self.connection_id) {
                    None => None,
                    Some(end) => {
                        match &end.counterparty.connection_id {
                            None => None,
                            Some(counterparty_connection_id) => Some(
                                ProofRequest {
                                    client_id: end.client_id.duplicate(),
                                    height: self.proof_height,
                                    claim: Claim::Connection {
                                        connection_id: counterparty_connection_id.duplicate(),
                                        connection_end: ConnectionEnd {
                                            state: ConnectionState::Open,
                                            client_id: end.counterparty.client_id.duplicate(),
                                            counterparty: ConnectionCounterparty {
                                                client_id: end.client_id.duplicate(),
                                                connection_id: Some(
                                                    self.connection_id.duplicate(),
                                                ),
                                            },
                                            versions: end.versions.clone(),
                                        },
                                    },
                                },
                            ),
                        }
                    },
                }
            },
        }
    }

    fn check_stateful(&self, state: &ChainState, evidence: &Evidence) -> (result: Result<
        (),
        Error,
    >) {
        match self.check_admissible(state) {
            Err(error) => Err(error),
            Ok(()) => {
                if evidence.proof_verified {
                    Ok(())
                } else {
                    Err(Error::ProofVerificationFailure)
                }
            },
        }
    }

    fn execute(&self, state: &mut ChainState, evidence: &Evidence) -> (result: Result<
        Outcome,
        Error,
    >) {
        match self.check_stateful(state, evidence) {
            Err(error) => {
                return Err(error);
            },
            Ok(()) => {},
        }
        let end = match state.connections.get(&self.connection_id) {
            None => {
                return Err(Error::InvalidStateTransition);
            },
            Some(end) => ConnectionEnd {
                state: ConnectionState::Open,
                client_id: end.client_id.duplicate(),
                counterparty: end.counterparty.duplicate(),
                versions: end.versions.clone(),
            },
        };
        let event = connection_open_confirm(&self.connection_id, &end);
        state.connections.insert(self.connection_id.duplicate(), end);
        Ok(Outcome::single(event, None))
    }
}

} // verus!
