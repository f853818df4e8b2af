//! The actions of a transaction, and the pipeline that takes a transaction
//! through the three phases.

use vstd::prelude::*;
use crate::channel::{
    MsgChannelCloseConfirm, MsgChannelCloseInit, MsgChannelOpenAck, MsgChannelOpenConfirm,
    MsgChannelOpenInit, MsgChannelOpenTry,
};
use crate::connection::{
    MsgConnectionOpenAck, MsgConnectionOpenConfirm, MsgConnectionOpenInit, MsgConnectionOpenTry,
};
use crate::error::Error;
use crate::handler::{ActionHandler, Evidence, Outcome, OutcomeView, ProofRequest, ProofRequestView};
use crate::packet::{MsgAcknowledgement, MsgRecvPacket, MsgTimeout};
use crate::position::PositionClose;
use crate::state::{ChainState, ChainStateView};

verus! {

/// The operations a transaction can hold.
#[derive(Clone, Debug, PartialEq, Eq)]
pub enum Action {
    ConnectionOpenInit(MsgConnectionOpenInit),
    ConnectionOpenTry(MsgConnectionOpenTry),
    ConnectionOpenAck(MsgConnectionOpenAck),
    ConnectionOpenConfirm(MsgConnectionOpenConfirm),
    ChannelOpenInit(MsgChannelOpenInit),
    ChannelOpenTry(MsgChannelOpenTry),
    ChannelOpenAck(MsgChannelOpenAck),
    ChannelOpenConfirm(MsgChannelOpenConfirm),
    ChannelCloseInit(MsgChannelCloseInit),
    ChannelCloseConfirm(MsgChannelCloseConfirm),
    RecvPacket(MsgRecvPacket),
    Acknowledgement(MsgAcknowledgement),
    Timeout(MsgTimeout),
    PositionClose(PositionClose),
}

/// An ordered list of actions.
#[derive(Clone, Debug, PartialEq, Eq)]
pub struct Transaction {
    pub actions: Vec<Action>,
}

impl ActionHandler for Action {
    open spec fn stateless_result(&self) -> Result<(), Error> {
        match self {
            Action::ConnectionOpenInit(msg) => msg.stateless_result(),
            Action::ConnectionOpenTry(msg) => msg.stateless_result(),
            Action::ConnectionOpenAck(msg) => msg.stateless_result(),
            Action::ConnectionOpenConfirm(msg) => msg.stateless_result(),
            Action::ChannelOpenInit(msg) => msg.stateless_result(),
            Action::ChannelOpenTry(msg) => msg.stateless_result(),
            Action::ChannelOpenAck(msg) => msg.stateless_result(),
            Action::ChannelOpenConfirm(msg) => msg.stateless_result(),
            Action::ChannelCloseInit(msg) => msg.stateless_result(),
            Action::ChannelCloseConfirm(msg) => msg.stateless_result(),
            Action::RecvPacket(msg) => msg.stateless_result(),
            Action::Acknowledgement(msg) => msg.stateless_result(),
            Action::Timeout(msg) => msg.stateless_result(),
            Action::PositionClose(msg) => msg.stateless_result(),
        }
    }

    open spec fn proof_request_of(&self, state: ChainStateView) -> Option<ProofRequestView> {
        match self {
            Action::ConnectionOpenInit(msg) => msg.proof_request_of(state),
            Action::ConnectionOpenTry(msg) => msg.proof_request_of(state),
            Action::ConnectionOpenAck(msg) => msg.proof_request_of(state),
            Action::ConnectionOpenConfirm(msg) => msg.proof_request_of(state),
            Action::ChannelOpenInit(msg) => msg.proof_request_of(state),
            Action::ChannelOpenTry(msg) => msg.proof_request_of(state),
            Action::ChannelOpenAck(msg) => msg.proof_request_of(state),
            Action::ChannelOpenConfirm(msg) => msg.proof_request_of(state),
            Action::ChannelCloseInit(msg) => msg.proof_request_of(state),
            Action::ChannelCloseConfirm(msg) => msg.proof_request_of(state),
            Action::RecvPacket(msg) => msg.proof_request_of(state),
            Action::Acknowledgement(msg) => msg.proof_request_of(state),
            Action::Timeout(msg) => msg.proof_request_of(state),
            Action::PositionClose(msg) => msg.proof_request_of(state),
        }
    }

    open spec fn stateful_result(&self, state: ChainStateView, evidence: Evidence) -> Result<
        (),
        Error,
    > {
        match self {
            Action::ConnectionOpenInit(msg) => msg.stateful_result(state, evidence),
            Action::ConnectionOpenTry(msg) => msg.stateful_result(state, evidence),
            Action::ConnectionOpenAck(msg) => msg.stateful_result(state, evidence),
            Action::ConnectionOpenConfirm(msg) => msg.stateful_result(state, evidence),
            Action::ChannelOpenInit(msg) => msg.stateful_result(state, evidence),
            Action::ChannelOpenTry(msg) => msg.stateful_result(state, evidence),
            Action::ChannelOpenAck(msg) => msg.stateful_result(state, evidence),
            Action::ChannelOpenConfirm(msg) => msg.stateful_result(state, evidence),
            Action::ChannelCloseInit(msg) => msg.stateful_result(state, evidence),
            Action::ChannelCloseConfirm(msg) => msg.stateful_result(state, evidence),
            Action::RecvPacket(msg) => msg.stateful_result(state, evidence),
            Action::Acknowledgement(msg) => msg.stateful_result(state, evidence),
            Action::Timeout(msg) => msg.stateful_result(state, evidence),
            Action::PositionClose(msg) => msg.stateful_result(state, evidence),
        }
    }

    open spec fn applied(&self, state: ChainStateView, evidence: Evidence) -> ChainStateView {
        match self {
            Action::ConnectionOpenInit(msg) => msg.applied(state, evidence),
            Action::ConnectionOpenTry(msg) => msg.applied(state, evidence),
            Action::ConnectionOpenAck(msg) => msg.applied(state, evidence),
            Action::ConnectionOpenConfirm(msg) => msg.applied(state, evidence),
            Action::ChannelOpenInit(msg) => msg.applied(state, evidence),
            Action::ChannelOpenTry(msg) => msg.applied(state, evidence),
            Action::ChannelOpenAck(msg) => msg.applied(state, evidence),
            Action::ChannelOpenConfirm(msg) => msg.applied(state, evidence),
            Action::ChannelCloseInit(msg) => msg.applied(state, evidence),
            Action::ChannelCloseConfirm(msg) => msg.applied(state, evidence),
            Action::RecvPacket(msg) => msg.applied(state, evidence),
            Action::Acknowledgement(msg) => msg.applied(state, evidence),
            Action::Timeout(msg) => msg.applied(state, evidence),
            Action::PositionClose(msg) => msg.applied(state, evidence),
        }
    }

    open spec fn outcome_of(&self, state: ChainStateView, evidence: Evidence) -> OutcomeView {
        match self {
            Action::ConnectionOpenInit(msg) => msg.outcome_of(state, evidence),
            Action::ConnectionOpenTry(msg) => msg.outcome_of(state, evidence),
            Action::ConnectionOpenAck(msg) => msg.outcome_of(state, evidence),
            Action::ConnectionOpenConfirm(msg) => msg.outcome_of(state, evidence),
            Action::ChannelOpenInit(msg) => msg.outcome_of(state, evidence),
            Action::ChannelOpenTry(msg) => msg.outcome_of(state, evidence),
            Action::ChannelOpenAck(msg) => msg.outcome_of(state, evidence),
            Action::ChannelOpenConfirm(msg) => msg.outcome_of(state, evidence),
            Action::ChannelCloseInit(msg) => msg.outcome_of(state, evidence),
            Action::ChannelCloseConfirm(msg) => msg.outcome_of(state, evidence),
            Action::RecvPacket(msg) => msg.outcome_of(state, evidence),
            Action::Acknowledgement(msg) => msg.outcome_of(state, evidence),
            Action::Timeout(msg) => msg.outcome_of(state, evidence),
            Action::PositionClose(msg) => msg.outcome_of(state, evidence),
        }
    }

    fn check_stateless(&self, context: &Transaction) -> (result: Result<(), Error>) {
        match self {
            Action::ConnectionOpenInit(msg) => msg.check_stateless(context),
            Action::ConnectionOpenTry(msg) => msg.check_stateless(context),
            Action::ConnectionOpenAck(msg) => msg.check_stateless(context),
            Action::ConnectionOpenConfirm(msg) => msg.check_stateless(context),
            Action::ChannelOpenInit(msg) => msg.check_stateless(context),
            Action::ChannelOpenTry(msg) => msg.check_stateless(context),
            Action::ChannelOpenAck(msg) => msg.check_stateless(context),
            Action::ChannelOpenConfirm(msg) => msg.check_stateless(context),
            Action::ChannelCloseInit(msg) => msg.check_stateless(context),
            Action::ChannelCloseConfirm(msg) => msg.check_stateless(context),
            Action::RecvPacket(msg) => msg.check_stateless(context),
            Action::Acknowledgement(msg) => msg.check_stateless(context),
            Action::Timeout(msg) => msg.check_stateless(context),
            Action::PositionClose(msg) => msg.check_stateless(context),
        }
    }

    fn proof_request(&self, state: &ChainState) -> (request: Option<ProofRequest>) {
        match self {
            Action::ConnectionOpenInit(msg) => msg.proof_request(state),
            Action::ConnectionOpenTry(msg) => msg.proof_request(state),
            Action::ConnectionOpenAck(msg) => msg.proof_request(state),
            Action::ConnectionOpenConfirm(msg) => msg.proof_request(state),
            Action::ChannelOpenInit(msg) => msg.proof_request(state),
            Action::ChannelOpenTry(msg) => msg.proof_request(state),
            Action::ChannelOpenAck(msg) => msg.proof_request(state),
            Action::ChannelOpenConfirm(msg) => msg.proof_request(state),
            Action::ChannelCloseInit(msg) => msg.proof_request(state),
            Action::ChannelCloseConfirm(msg) => msg.proof_request(state),
            Action::RecvPacket(msg) => msg.proof_request(state),
            Action::Acknowledgement(msg) => msg.proof_request(state),
            Action::Timeout(msg) => msg.proof_request(state),
            Action::PositionClose(msg) => msg.proof_request(state),
        }
    }

    fn check_stateful(&self, state: &ChainState, evidence: &Evidence) -> (result: Result<
        (),
        Error,
    >) {
        match self {
            Action::ConnectionOpenInit(msg) => msg.check_stateful(state, evidence),
            Action::ConnectionOpenTry(msg) => msg.check_stateful(state, evidence),
            Action::ConnectionOpenAck(msg) => msg.check_stateful(state, evidence),
            Action::ConnectionOpenConfirm(msg) => msg.check_stateful(state, evidence),
            Action::ChannelOpenInit(msg) => msg.check_stateful(state, evidence),
            Action::ChannelOpenTry(msg) => msg.check_stateful(state, evidence),
            Action::ChannelOpenAck(msg) => msg.check_stateful(state, evidence),
            Action::ChannelOpenConfirm(msg) => msg.check_stateful(state, evidence),
            Action::ChannelCloseInit(msg) => msg.check_stateful(state, evidence),
            Action::ChannelCloseConfirm(msg) => msg.check_stateful(state, evidence),
            Action::RecvPacket(msg) => msg.check_stateful(state, evidence),
            Action::Acknowledgement(msg) => msg.check_stateful(state, evidence),
            Action::Timeout(msg) => msg.check_stateful(state, evidence),
            Action::PositionClose(msg) => msg.check_stateful(state, evidence),
        }
    }

    fn execute(&self, state: &mut ChainState, evidence: &Evidence) -> (result: Result<
        Outcome,
        Error,
    >) {
        match self {
            Action::ConnectionOpenInit(msg) => msg.execute(state, evidence),
            Action::ConnectionOpenTry(msg) => msg.execute(state, evidence),
            Action::ConnectionOpenAck(msg) => msg.execute(state, evidence),
            Action::ConnectionOpenConfirm(msg) => msg.execute(state, evidence),
            Action::ChannelOpenInit(msg) => msg.execute(state, evidence),
            Action::ChannelOpenTry(msg) => msg.execute(state, evidence),
            Action::ChannelOpenAck(msg) => msg.execute(state, evidence),
            Action::ChannelOpenConfirm(msg) => msg.execute(state, evidence),
            Action::ChannelCloseInit(msg) => msg.execute(state, evidence),
            Action::ChannelCloseConfirm(msg) => msg.execute(state, evidence),
            Action::RecvPacket(msg) => msg.execute(state, evidence),
            Action::Acknowledgement(msg) => msg.execute(state, evidence),
            Action::Timeout(msg) => msg.execute(state, evidence),
            Action::PositionClose(msg) => msg.execute(state, evidence),
        }
    }
}

/// A state together with the outcomes of the actions that led to it.
pub struct Run {
    pub state: ChainStateView,
    pub outcomes: Seq<OutcomeView>,
}

/// The views of a list of outcomes.
pub open spec fn outcome_views(outcomes: Seq<Outcome>) -> Seq<OutcomeView> {
    outcomes.map_values(|o: Outcome| o@)
}

/// The error of the first action, from index `from` on, whose stateless
/// check fails.
pub open spec fn stateless_failure(actions: Seq<Action>, from: int) -> Option<Error>
    decreases actions.len() - from,
{
    if from < 0 || from >= actions.len() {
        None
    } else {
        match actions[from].stateless_result() {
            Err(error) => Some(error),
            Ok(()) => stateless_failure(actions, from + 1),
        }
    }
}

/// The error of the first action, from index `from` on, whose stateful
/// check fails in `state`.
pub open spec fn stateful_failure(
    actions: Seq<Action>,
    evidence: Seq<Evidence>,
    state: ChainStateView,
    from: int,
) -> Option<Error>
    decreases actions.len() - from,
{
    if from < 0 || from >= actions.len() {
        None
    } else {
        match actions[from].stateful_result(state, evidence[from]) {
            Err(error) => Some(error),
            Ok(()) => stateful_failure(actions, evidence, state, from + 1),
        }
    }
}

/// Executes the actions from index `from` on, in order, each on the state
/// that the one before it left. The first action that is rejected ends the
/// run with its error.
pub open spec fn run(
    actions: Seq<Action>,
    evidence: Seq<Evidence>,
    state: ChainStateView,
    from: int,
) -> Result<Run, Error>
    decreases actions.len() - from,
{
    if from < 0 || from >= actions.len() {
        Ok(Run { state, outcomes: Seq::empty() })
    } else {
        match actions[from].stateful_result(state, evidence[from]) {
            Err(error) => Err(error),
            Ok(()) => match run(
                actions,
                evidence,
                actions[from].applied(state, evidence[from]),
                from + 1,
            ) {
                Err(error) => Err(error),
                Ok(rest) => Ok(
                    Run {
                        state: rest.state,
                        outcomes: seq![actions[from].outcome_of(state, evidence[from])]
                            + rest.outcomes,
                    },
                ),
            },
        }
    }
}

/// What delivering a transaction comes to. There must be evidence for
/// every action. Then every action must pass its stateless check; then every
/// action must pass its stateful check in the state before the transaction;
/// then the actions are executed in order.
pub open spec fn delivered(
    state: ChainStateView,
    actions: Seq<Action>,
    evidence: Seq<Evidence>,
) -> Result<Run, Error> {
    if evidence.len() != actions.len() {
        Err(Error::MalformedAction)
    } else {
        match stateless_failure(actions, 0) {
            Some(error) => Err(error),
            None => match stateful_failure(actions, evidence, state, 0) {
                Some(error) => Err(error),
                None => run(actions, evidence, state, 0),
            },
        }
    }
}

/// Runs the stateless check of every action, in order.
pub fn check_all_stateless(transaction: &Transaction) -> (result: Result<(), Error>)
    ensures
        result == match stateless_failure(transaction.actions@, 0) {
            Some(error) => Err::<(), Error>(error),
            None => Ok(()),
        },
{
    let mut i: usize = 0;
    while i < transaction.actions.len()
        invariant
            i <= transaction.actions@.len(),
            stateless_failure(transaction.actions@, 0) == stateless_failure(
                transaction.actions@,
                i as int,
            ),
        decreases transaction.actions@.len() - i,
    {
        match transaction.actions[i].check_stateless(transaction) {
            Err(error) => {
                return Err(error);
            },
            Ok(()) => {},
        }
        i += 1;
    }
    Ok(())
}

/// Runs the stateful check of every action, in order, all of them against
/// the same snapshot. There must be evidence for every action.
pub fn check_all_stateful(state: &ChainState, transaction: &Transaction, evidence: &Vec<Evidence>) -> (result:
    Result<(), Error>)
    ensures
        result == if evidence@.len() != transaction.actions@.len() {
            Err::<(), Error>(Error::MalformedAction)
        } else {
            match stateful_failure(transaction.actions@, evidence@, state@, 0) {
                Some(error) => Err::<(), Error>(error),
                None => Ok(()),
            }
        },
{
    if evidence.len() != transaction.actions.len() {
        return Err(Error::MalformedAction);
    }
    let mut i: usize = 0;
    while i < transaction.actions.len()
        invariant
            i <= transaction.actions@.len(),
            evidence@.len() == transaction.actions@.len(),
            stateful_failure(transaction.actions@, evidence@, state@, 0) == stateful_failure(
                transaction.actions@,
                evidence@,
                state@,
                i as int,
            ),
        decreases transaction.actions@.len() - i,
    {
        match transaction.actions[i].check_stateful(state, &evidence[i]) {
            Err(error) => {
                return Err(error);
            },
            Ok(()) => {},
        }
        i += 1;
    }
    Ok(())
}

/// Executes the actions in order on `state`. On an error the state is what
/// the actions before the rejected one left.
fn execute_all(state: &mut ChainState, transaction: &Transaction, evidence: &Vec<Evidence>) -> (result:
    Result<Vec<Outcome>, Error>)
    requires
        evidence@.len() == transaction.actions@.len(),
    ensures
        match result {
            Ok(outcomes) => run(transaction.actions@, evidence@, old(state)@, 0) == Ok::<Run, Error>(
                Run { state: final(state)@, outcomes: outcome_views(outcomes@) },
            ),
            Err(error) => run(transaction.actions@, evidence@, old(state)@, 0) == Err::<Run, Error>(
                error,
            ),
        },
{
    let mut outcomes: Vec<Outcome> = Vec::new();
    let mut i: usize = 0;
    while i < transaction.actions.len()
        invariant
            i <= transaction.actions@.len(),
            evidence@.len() == transaction.actions@.len(),
            match run(transaction.actions@, evidence@, state@, i as int) {
                Err(error) => run(transaction.actions@, evidence@, old(state)@, 0) == Err::<
                    Run,
                    Error,
                >(error),
                Ok(rest) => run(transaction.actions@, evidence@, old(state)@, 0) == Ok::<Run, Error>(
                    Run { state: rest.state, outcomes: outcome_views(outcomes@) + rest.outcomes },
                ),
            },
        decreases transaction.actions@.len() - i,
    {
        let ghost collected = outcome_views(outcomes@);
        match transaction.actions[i].execute(state, &evidence[i]) {
            Err(error) => {
                return Err(error);
            },
            Ok(outcome) => {
                outcomes.push(outcome);
                proof {
                    let rest = run(transaction.actions@, evidence@, state@, i + 1);
                    assert(outcome_views(outcomes@) =~= collected + seq![outcome@]);
                    if rest is Ok {
                        assert((collected + seq![outcome@]) + rest->Ok_0.outcomes =~= collected + (
                        seq![outcome@] + rest->Ok_0.outcomes));
                    }
                }
            },
        }
        i += 1;
    }
    proof {
        assert(outcome_views(outcomes@) + Seq::<OutcomeView>::empty() =~= outcome_views(outcomes@));
    }
    Ok(outcomes)
}

/// Delivers a transaction: all of it or nothing. Where any action is
/// rejected in any phase, the error is returned and the state stays as it
/// was; else the state is the one that the last action left, and the
/// outcomes of the actions are returned in order.
pub fn deliver(state: &mut ChainState, transaction: &Transaction, evidence: &Vec<Evidence>) -> (result:
    Result<Vec<Outcome>, Error>)
    ensures
        match result {
            Ok(outcomes) => delivered(old(state)@, transaction.actions@, evidence@) == Ok::<
                Run,
                Error,
            >(Run { state: final(state)@, outcomes: outcome_views(outcomes@) }),
            Err(error) => {
                &&& delivered(old(state)@, transaction.actions@, evidence@) == Err::<Run, Error>(
                    error,
                )
                &&& final(state)@ == old(state)@
            },
        },
{
    if evidence.len() != transaction.actions.len() {
        return Err(Error::MalformedAction);
    }
    match check_all_stateless(transaction) {
        Err(error) => {
            return Err(error);
        },
        Ok(()) => {},
    }
    match check_all_stateful(state, transaction, evidence) {
        Err(error) => {
            return Err(error);
        },
        Ok(()) => {},
    }
    let mut working = state.duplicate();
    match execute_all(&mut working, transaction, evidence) {
        Err(error) => Err(error),
        Ok(outcomes) => {
            *state = working;
            Ok(outcomes)
        },
    }
}

} // verus!
