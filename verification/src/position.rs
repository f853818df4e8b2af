//! Closing a liquidity position.

use vstd::prelude::*;
use crate::action::Transaction;
use crate::error::Error;
use crate::handler::{ActionHandler, Evidence, Outcome, OutcomeView, ProofRequest, ProofRequestView};
use crate::state::{ChainState, ChainStateView};

verus! {

/// Debits an opened position and credits a closed one. Liquidity-position
/// actions are switched off: every phase rejects the action.
#[derive(Clone, Debug, PartialEq, Eq)]
pub struct PositionClose {
    pub position_id: Vec<u8>,
}

impl ActionHandler for PositionClose {
    open spec fn stateless_result(&self) -> Result<(), Error> {
        Err(Error::FeatureDisabled)
    }

    open spec fn proof_request_of(&self, state: ChainStateView) -> Option<ProofRequestView> {
        None
    }

    open spec fn stateful_result(&self, state: ChainStateView, evidence: Evidence) -> Result<
        (),
        Error,
    > {
        Err(Error::FeatureDisabled)
    }

    open spec fn applied(&self, state: ChainStateView, evidence: Evidence) -> ChainStateView {
        state
    }

    open spec fn outcome_of(&self, state: ChainStateView, evidence: Evidence) -> OutcomeView {
        OutcomeView { events: Seq::empty(), callback: None }
    }

    fn check_stateless(&self, context: &Transaction) -> (result: Result<(), Error>) {
        Err(Error::FeatureDisabled)
    }

    fn proof_request(&self, state: &ChainState) -> (request: Option<ProofRequest>) {
        None
    }

    fn check_stateful(&self, state: &ChainState, evidence: &Evidence) -> (result: Result<
        (),
        Error,
    >) {
        Err(Error::FeatureDisabled)
    }

    fn execute(&self, state: &mut ChainState, evidence: &Evidence) -> (result: Result<
        Outcome,
        Error,
    >) {
        Err(Error::FeatureDisabled)
    }
}

} // verus!
