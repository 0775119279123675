//! Error taxonomy of the library.

use vstd::prelude::*;

verus! {

/// Failure modes of the account codec.
#[derive(Clone, Copy, Debug, PartialEq, Eq, Structural)]
pub enum DecodeError {
    /// The leading discriminator bytes belong to a different record kind.
    Mismatch,
    /// The buffer is too short for the record kind's fixed layout.
    Truncated,
    /// A fixed-width string field does not hold valid UTF-8.
    InvalidEncoding,
}

/// Failure modes of loading a signing credential.
#[derive(Clone, Debug)]
pub enum KeypairError {
    /// The credential file could not be opened.
    FileOpen(String),
    /// The credential file could not be read.
    FileRead(String),
    /// The credential file does not hold exactly the keypair length in bytes.
    SizeMismatch,
    /// The credential bytes do not form a valid keypair.
    Load,
}

/// Failure modes of transaction assembly.
#[derive(Clone, Debug)]
pub enum TransactionError {
    /// A required signer credential was absent, not required by the
    /// message, or signing stayed incomplete.
    SigningFailed(String),
}

/// Failure surfaced by the listing facade.
#[derive(Clone, Debug)]
pub enum LendingClientError {
    /// A transport-level failure reported by the remote ledger client.
    ClientError(String),
}

} // verus!
