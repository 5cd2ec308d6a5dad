//! Errors the migration handler can report.

use vstd::prelude::*;

verus! {

/// Why a migration attempt was refused or failed.
#[derive(Clone, Copy, Debug, PartialEq, Eq, Structural)]
pub enum AmmError {
    /// The pool has not finished its bonding-curve phase (`locked` is
    /// false), so migration is not yet authorized.
    PoolIsLocked,
    /// The pool has already been migrated; the transition is one-way.
    AlreadyMigrated,
    /// A supplied account does not match the pool's recorded accounts,
    /// the expected derived address, or the fixed fee receiver.
    InvalidAccountInput,
    /// A vault holds fewer tokens than the amount to be moved out of it.
    InsufficientFunds,
    /// A token transfer cannot be performed (destination balance would
    /// overflow).
    TransferFailed,
    /// The external pool-initialization call failed; surfaced opaquely.
    ExternalCallFailed,
}

impl AmmError {
    /// A short description of the error.
    pub fn describe(&self) -> (r: &'static str) {
        match self {
            AmmError::PoolIsLocked => "pool is not locked for migration",
            AmmError::AlreadyMigrated => "pool has already been migrated",
            AmmError::InvalidAccountInput => "an account does not match its expected address",
            AmmError::InsufficientFunds => "vault balance is below the migration amount",
            AmmError::TransferFailed => "token transfer could not be performed",
            AmmError::ExternalCallFailed => "external pool initialization failed",
        }
    }
}

} // verus!
