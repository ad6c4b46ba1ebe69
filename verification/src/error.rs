//! Why a request is refused.

use vstd::prelude::*;

verus! {

/// The stored item that a request found missing.
#[derive(Clone, Copy, Debug, PartialEq, Eq, Structural)]
pub enum StoredItem {
    /// The sale configuration (absent before instantiation).
    Config,
    /// The metadata list (absent before instantiation).
    Metadata,
    /// A per-address amount record.
    UserAmount,
    /// A whitelist record.
    WhiteUser,
    /// An admin record.
    Admin,
}

/// A failure of the store itself.
#[derive(Clone, Copy, Debug, PartialEq, Eq, Structural)]
pub enum StdError {
    /// A record that must exist is missing.
    NotFound { kind: StoredItem },
}

/// Why an execution was refused.
#[derive(Clone, Copy, Debug, PartialEq, Eq, Structural)]
pub enum ContractError {
    Std(StdError),
    /// The sender may not do this.
    Unauthorized {},
    /// Less than zero.
    ZeorError {},
    /// The token number is above the total.
    WrongNumber {},
    /// The payment does not equal the price.
    Notenough {},
    /// Every token has been minted.
    MintEnded {},
    /// No more minting allowed.
    MintExceeded {},
    /// The sender is not whitelisted.
    WrongWhiteUser {},
}

} // verus!
