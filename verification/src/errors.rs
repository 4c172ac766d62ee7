//! What an operation of a ledger can fail with.

use vstd::prelude::*;

verus! {

/// The failures of the unique-asset ledger.
#[derive(Debug, PartialEq, Eq)]
pub enum PSP721Error {
    /// The recipient did not accept a safe transfer.
    CallFailed,
    /// The account named as holder does not own the token.
    NotOwner,
    /// The caller may not move the token.
    NotApproved,
    /// The token already has an owner.
    TokenExists,
    /// The token has no owner.
    TokenNotFound,
    /// The caller may not do this: a self-approval, or the zero account as
    /// target.
    NotAllowed,
    /// A counter of the ledger is at its limit.
    Overflow,
    /// A reason given by an extension of the ledger.
    Custom(String),
}

/// Why a recipient turned a token down.
#[derive(Debug, PartialEq, Eq)]
pub enum PSP721ReceiverError {
    /// The recipient rejects the transfer, with its reason.
    TransferRejected(String),
}

/// The failures of the multi-category ledger.
#[derive(Debug, PartialEq, Eq)]
pub enum PSP1155Error {
    /// The caller may not move the holder's balance.
    NotApproved,
    /// The caller is not an approved operator of the holder.
    ApproveRequired,
    /// The caller may not do this: a self-approval, or the zero account as
    /// target.
    NotAllowed,
    /// The holder has less than the amount asked for.
    InsufficientBalance,
    /// A balance, a supply or a counter of the ledger would pass its limit.
    Overflow,
    /// A reason given by an extension of the ledger.
    Custom(String),
}

} // verus!
