//! The extension points of the unique-asset ledger.

use crate::account::{named, AccountId, Id};
use crate::errors::PSP721Error;
use vstd::prelude::*;

verus! {

/// What an embedding contract adds to the ledger: a veto before a token
/// moves, a judgement after it has moved, and a sink for the events.
///
/// The ledger hands an extension what it is about to do, or has done; an
/// extension has no way to the ledger's tables. What an extension answers is
/// a matter of the extension and of what it is asked alone: the two verdicts
/// say what, and the two hooks give that answer. The ledger's operations are
/// stated over the verdicts; of an extension for which a hook and its
/// verdict differ, they state nothing.
pub trait Transfer {
    /// What the extension says of a mint (`from` is `None`), a burn (`to` is
    /// `None`) or a transfer before it is made: an error is a veto.
    spec fn before_verdict(&self, from: Option<AccountId>, to: Option<AccountId>, id: Id) -> Result<
        (),
        PSP721Error,
    >;

    /// What the extension says of a mint, a burn or a transfer that was
    /// made.
    spec fn after_verdict(&self, from: Option<AccountId>, to: Option<AccountId>, id: Id) -> Result<
        (),
        PSP721Error,
    >;

    /// Called before a token is minted, burned or moved. An error stops the
    /// operation before anything changes, and is the operation's result.
    fn _before_token_transfer(
        &self,
        from: Option<&AccountId>,
        to: Option<&AccountId>,
        id: &Id,
    ) -> (verdict: Result<(), PSP721Error>)
        ensures
            verdict == self.before_verdict(named(from), named(to), *id),
    ;

    /// Called after the token was minted, burned or moved. An error is the
    /// operation's result; the ledger stays changed.
    fn _after_token_transfer(
        &self,
        from: Option<&AccountId>,
        to: Option<&AccountId>,
        id: &Id,
    ) -> (verdict: Result<(), PSP721Error>)
        ensures
            verdict == self.after_verdict(named(from), named(to), *id),
    ;

    /// Told of a token that moved from `from` to `to`; the zero account
    /// stands for a mint or a burn. Does nothing unless an extension
    /// overrides it.
    fn _emit_transfer_event(&self, _from: AccountId, _to: AccountId, _id: Id) {
    }

    /// Told of `to` being approved for `id` by `from`. Does nothing unless
    /// an extension overrides it.
    fn _emit_approval_event(&self, _from: AccountId, _to: AccountId, _id: Id) {
    }

    /// Told of what `owner` said of `operator`. Does nothing unless an
    /// extension overrides it.
    fn _emit_approval_for_all_event(
        &self,
        _owner: AccountId,
        _operator: AccountId,
        _approved: bool,
    ) {
    }
}

/// The extension that adds nothing: it lets every movement pass and emits no
/// event.
pub struct NoExtension;

impl Transfer for NoExtension {
    open spec fn before_verdict(
        &self,
        from: Option<AccountId>,
        to: Option<AccountId>,
        id: Id,
    ) -> Result<(), PSP721Error> {
        Ok(())
    }

    open spec fn after_verdict(
        &self,
        from: Option<AccountId>,
        to: Option<AccountId>,
        id: Id,
    ) -> Result<(), PSP721Error> {
        Ok(())
    }

    fn _before_token_transfer(
        &self,
        _from: Option<&AccountId>,
        _to: Option<&AccountId>,
        _id: &Id,
    ) -> (verdict: Result<(), PSP721Error>) {
        Ok(())
    }

    fn _after_token_transfer(
        &self,
        _from: Option<&AccountId>,
        _to: Option<&AccountId>,
        _id: &Id,
    ) -> (verdict: Result<(), PSP721Error>) {
        Ok(())
    }
}

} // verus!
