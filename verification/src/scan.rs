//! What a client that scans blocks keeps of each commitment it sees.

use vstd::prelude::*;

verus! {

/// The kinds of payload a block holds.
#[derive(Clone, Copy, Debug, PartialEq, Eq, Structural)]
pub enum PayloadKind {
    /// An encrypted note.
    Note,
    /// An encrypted swap.
    Swap,
    /// A bare commitment, whose payload was rolled up.
    RolledUp,
}

/// Whether the commitment tree keeps the path to a commitment.
#[derive(Clone, Copy, Debug, PartialEq, Eq, Structural)]
pub enum Witness {
    Keep,
    Forget,
}

/// The commitment of a note or swap is kept where the payload decrypts
/// with the client's key; a rolled-up commitment is kept where the client
/// expects a note with it.
pub open spec fn kept(kind: PayloadKind, decrypted: bool, anticipated: bool) -> bool {
    match kind {
        PayloadKind::Note => decrypted,
        PayloadKind::Swap => decrypted,
        PayloadKind::RolledUp => anticipated,
    }
}

/// Decides whether to keep or to forget the commitment of a payload.
pub fn witness_for(kind: PayloadKind, decrypted: bool, anticipated: bool) -> (witness: Witness)
    ensures
        witness == if kept(kind, decrypted, anticipated) {
            Witness::Keep
        } else {
            Witness::Forget
        },
{
    let keep = match kind {
        PayloadKind::Note => decrypted,
        PayloadKind::Swap => decrypted,
        PayloadKind::RolledUp => anticipated,
    };
    if keep {
        Witness::Keep
    } else {
        Witness::Forget
    }
}

} // verus!
