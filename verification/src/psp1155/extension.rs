//! The extension points of the multi-category ledger.

use crate::account::{named, AccountId, Balance, Id};
use crate::errors::PSP1155Error;
use vstd::prelude::*;

verus! {

/// The items of a batch, as the verdicts of an extension speak of them.
pub type Items = Seq<(Id, Balance)>;

/// What an embedding contract adds to the ledger: a veto before balances
/// move, a judgement after they have moved, and a sink for the events.
///
/// The ledger hands an extension what it is about to do, or has done; an
/// extension has no way to the ledger's tables. What an extension answers is
/// a matter of the extension and of what it is asked alone: the two verdicts
/// say what, and the two hooks give that answer. The ledger's operations are
/// stated over the verdicts; of an extension for which a hook and its
/// verdict differ, they state nothing.
pub trait Transfer {
    /// What the extension says of a batch that is minted (`from` is `None`),
    /// burned (`to` is `None`) or moved, before it is run: an error is a
    /// veto.
    spec fn before_verdict(&self, from: Option<AccountId>, to: Option<AccountId>, ids: Items)
        -> Result<(), PSP1155Error>;

    /// What the extension says of a batch that was run to its end.
    spec fn after_verdict(&self, from: Option<AccountId>, to: Option<AccountId>, ids: Items)
        -> Result<(), PSP1155Error>;

    /// Called before a batch is minted, burned or moved. An error stops the
    /// operation before anything changes, and is the operation's result.
    fn _before_token_transfer(
        &self,
        from: Option<&AccountId>,
        to: Option<&AccountId>,
        ids: &Vec<(Id, Balance)>,
    ) -> (verdict: Result<(), PSP1155Error>)
        ensures
            verdict == self.before_verdict(named(from), named(to), ids@),
    ;

    /// Called after the whole batch was minted, burned or moved. An error is
    /// the operation's result; the ledger stays changed.
    fn _after_token_transfer(
        &self,
        from: Option<&AccountId>,
        to: Option<&AccountId>,
        ids: &Vec<(Id, Balance)>,
    ) -> (verdict: Result<(), PSP1155Error>)
        ensures
            verdict == self.after_verdict(named(from), named(to), ids@),
    ;

    /// Told of a batch that moved; `None` stands for a mint or a burn. Does
    /// nothing unless an extension overrides it.
    fn _emit_transfer_batch_event(
        &self,
        _from: Option<AccountId>,
        _to: Option<AccountId>,
        _ids: &Vec<(Id, Balance)>,
    ) {
    }

    /// Told of the allowance that `owner` set for `spender`. Does nothing
    /// unless an extension overrides it.
    fn _emit_approval_event(
        &self,
        _owner: AccountId,
        _spender: AccountId,
        _id: Id,
        _amount: Balance,
    ) {
    }

    /// Told of what `owner` said of `operator`. Does nothing unless an
    /// extension overrides it.
    fn _emit_approval_for_all_event(
        &self,
        _owner: AccountId,
        _operator: AccountId,
        _approved: bool,
    ) {
    }
}

/// The extension that adds nothing: it lets every batch pass and emits no
/// event.
pub struct NoExtension;

impl Transfer for NoExtension {
    open spec fn before_verdict(
        &self,
        from: Option<AccountId>,
        to: Option<AccountId>,
        ids: Items,
    ) -> Result<(), PSP1155Error> {
        Ok(())
    }

    open spec fn after_verdict(
        &self,
        from: Option<AccountId>,
        to: Option<AccountId>,
        ids: Items,
    ) -> Result<(), PSP1155Error> {
        Ok(())
    }

    fn _before_token_transfer(
        &self,
        _from: Option<&AccountId>,
        _to: Option<&AccountId>,
        _ids: &Vec<(Id, Balance)>,
    ) -> (verdict: Result<(), PSP1155Error>) {
        Ok(())
    }

    fn _after_token_transfer(
        &self,
        _from: Option<&AccountId>,
        _to: Option<&AccountId>,
        _ids: &Vec<(Id, Balance)>,
    ) -> (verdict: Result<(), PSP1155Error>) {
        Ok(())
    }
}

} // verus!
