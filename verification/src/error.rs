//! Why an action is rejected.

use vstd::prelude::*;
use vstd::string::StringExecFns;

verus! {

/// The reasons for which an action, and with it its transaction, is
/// rejected. None of them is fatal to the process.
#[derive(Clone, Copy, Debug, PartialEq, Eq, Structural)]
pub enum Error {
    /// The action is not well formed. It can never become valid.
    MalformedAction,
    /// The step does not fit the state that the entity it names is in: the
    /// entity is missing, exists already, or is not in the state that the
    /// step starts from.
    InvalidStateTransition,
    /// The light client did not accept the proof. Another proof, for
    /// another height, may be accepted later.
    ProofVerificationFailure,
    /// No application is bound to the port.
    InvalidPort,
    /// The packet was received before, or its commitment is resolved.
    DuplicateDelivery,
    /// The kind of action is switched off.
    FeatureDisabled,
    /// The application bound to the port rejected the step.
    ApplicationRejected,
}

impl Error {
    pub open spec fn message_text(self) -> Seq<char> {
        match self {
            Error::MalformedAction => "malformed action"@,
            Error::InvalidStateTransition => "invalid state transition"@,
            Error::ProofVerificationFailure => "proof verification failed"@,
            Error::InvalidPort => "invalid port id"@,
            Error::DuplicateDelivery => "duplicate delivery"@,
            Error::FeatureDisabled => "lp actions not supported yet"@,
            Error::ApplicationRejected => "rejected by the application"@,
        }
    }

    /// The text to show for the error.
    pub fn message(&self) -> (text: String)
        ensures
            text@ == self.message_text(),
    {
        match self {
            Error::MalformedAction => String::from_str("malformed action"),
            Error::InvalidStateTransition => String::from_str("invalid state transition"),
            Error::ProofVerificationFailure => String::from_str("proof verification failed"),
            Error::InvalidPort => String::from_str("invalid port id"),
            Error::DuplicateDelivery => String::from_str("duplicate delivery"),
            Error::FeatureDisabled => String::from_str("lp actions not supported yet"),
            Error::ApplicationRejected => String::from_str("rejected by the application"),
        }
    }
}

} // verus!
