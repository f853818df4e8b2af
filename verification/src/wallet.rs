//! The wallet commands: what each of them decides before anything is read
//! from disk or written to it.

use vstd::prelude::*;
use crate::digest::{sha256, sha256_digest};
use crate::text::{hex_encode, hex_lower};

verus! {

/// The commands that manage the wallet file.
#[derive(Clone, Debug, PartialEq, Eq)]
pub enum WalletCmd {
    /// Import from an existing seed phrase.
    ImportFromPhrase {
        /// A 24 word phrase in quotes.
        seed_phrase: String,
    },
    /// Export the full viewing key for the wallet.
    ExportFvk,
    /// Generate a new seed phrase.
    Generate,
    /// Keep the spend seed, but reset all other client state.
    Reset,
    /// Delete the entire wallet permanently.
    Delete,
}

/// What is found at the wallet's path.
#[derive(Clone, Copy, Debug, PartialEq, Eq, Structural)]
pub enum PathKind {
    /// Nothing is there.
    Missing,
    /// A file is there.
    File,
    /// Something is there, and it is not a file.
    Other,
}

/// Why a wallet command stops before it touches the disk.
#[derive(Clone, Copy, Debug, PartialEq, Eq, Structural)]
pub enum WalletError {
    /// A wallet was to be deleted and something other than a file is at its
    /// path.
    NotAFile,
    /// A wallet was to be deleted and there is none.
    NoWallet,
    /// A wallet was to be saved where something exists already.
    AlreadyExists,
}

/// Number of digest bytes that name a wallet's archive directory.
pub const ARCHIVE_NAME_BYTES: usize = 8;

/// The name of a wallet's archive directory, given the digest of its spend
/// seed: the first eight bytes of the digest in hexadecimal, or all of it
/// where it is shorter.
pub open spec fn archive_name(digest: Seq<u8>) -> Seq<char> {
    if digest.len() <= ARCHIVE_NAME_BYTES {
        hex_lower(digest)
    } else {
        hex_lower(digest.subrange(0, ARCHIVE_NAME_BYTES as int))
    }
}

impl WalletCmd {
    /// Determine if this command requires a network sync before it
    /// executes. No wallet command does.
    pub fn needs_sync(&self) -> (needed: bool)
        ensures
            !needed,
    {
        match self {
            WalletCmd::ImportFromPhrase { .. } => false,
            WalletCmd::ExportFvk => false,
            WalletCmd::Generate => false,
            WalletCmd::Reset => false,
            WalletCmd::Delete => false,
        }
    }

    /// Whether the command makes a new wallet, which is then saved and
    /// archived.
    pub open spec fn makes_wallet(&self) -> bool {
        self is Generate || self is ImportFromPhrase
    }

    pub fn creates_wallet(&self) -> (creates: bool)
        ensures
            creates == self.makes_wallet(),
    {
        match self {
            WalletCmd::ImportFromPhrase { .. } => true,
            WalletCmd::Generate => true,
            WalletCmd::ExportFvk => false,
            WalletCmd::Reset => false,
            WalletCmd::Delete => false,
        }
    }
}

/// Decides whether the wallet may be deleted: only a file is deleted.
pub fn check_delete(found: PathKind) -> (result: Result<(), WalletError>)
    ensures
        result == match found {
            PathKind::File => Ok::<(), WalletError>(()),
            PathKind::Other => Err(WalletError::NotAFile),
            PathKind::Missing => Err(WalletError::NoWallet),
        },
{
    match found {
        PathKind::File => Ok(()),
        PathKind::Other => Err(WalletError::NotAFile),
        PathKind::Missing => Err(WalletError::NoWallet),
    }
}

/// Decides whether a new wallet may be saved: a wallet that exists is
/// never overwritten.
pub fn check_save(found: PathKind) -> (result: Result<(), WalletError>)
    ensures
        result == match found {
            PathKind::Missing => Ok::<(), WalletError>(()),
            _ => Err(WalletError::AlreadyExists),
        },
{
    match found {
        PathKind::Missing => Ok(()),
        _ => Err(WalletError::AlreadyExists),
    }
}

/// Names a wallet's archive directory from the digest of its spend seed.
pub fn archive_name_from_digest(digest: &Vec<u8>) -> (name: String)
    ensures
        name@ == archive_name(digest@),
{
    if digest.len() <= ARCHIVE_NAME_BYTES {
        return hex_encode(digest.as_slice());
    }
    let mut prefix: Vec<u8> = Vec::new();
    let mut i: usize = 0;
    while i < ARCHIVE_NAME_BYTES
        invariant
            i <= ARCHIVE_NAME_BYTES,
            ARCHIVE_NAME_BYTES < digest@.len(),
            prefix@ == digest@.subrange(0, i as int),
        decreases ARCHIVE_NAME_BYTES - i,
    {
        prefix.push(digest[i]);
        assert(prefix@ =~= digest@.subrange(0, i + 1));
        i += 1;
    }
    hex_encode(prefix.as_slice())
}

/// Names the archive directory of the wallet with this spend seed: the
/// first eight bytes of the seed's SHA-256 digest, in hexadecimal.
pub fn archive_directory_name(spend_seed: &[u8]) -> (name: String)
    ensures
        name@ == archive_name(sha256(spend_seed@)),
        name@.len() == 2 * ARCHIVE_NAME_BYTES,
{
    let digest = sha256_digest(spend_seed);
    archive_name_from_digest(&digest)
}

} // verus!
