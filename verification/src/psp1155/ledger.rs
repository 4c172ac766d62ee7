//! The operations of the multi-category ledger.

use crate::account::{AccountId, Balance, Id};
use crate::errors::PSP1155Error;
use crate::psp1155::extension::Transfer;
use crate::psp1155::model::{batch_outcome, Holdings, Movement};
use vstd::prelude::*;

verus! {

/// What a single item of a movement does to a ledger: on success the ledger
/// is the one that the model gives, on failure nothing changes and the error
/// is the model's.
pub open spec fn stepped(
    step: Result<Holdings, PSP1155Error>,
    before: Holdings,
    after: Holdings,
    result: Result<(), PSP1155Error>,
) -> bool {
    match step {
        Err(e) => result == Err::<(), PSP1155Error>(e) && after == before,
        Ok(next) => result is Ok && after == next,
    }
}

/// A ledger of balances in many categories.
///
/// The caller of an operation is the account that the host names as the
/// origin of the request; the ledger takes it as given. A batch is applied
/// item by item, in order: the first item that fails ends the batch with its
/// error, and what the items before it did stays done. What a ledger records
/// is valid at all times ([`Holdings::valid`]): of each category, the
/// balances add up to the supply. The operations say so of the ledger they
/// leave.
pub trait PSP1155 {
    /// What the ledger records.
    spec fn ledger(&self) -> Holdings;

    /// What `owner` holds of `id`; nothing, if the ledger has no entry for
    /// the pair.
    fn balance_of(&self, owner: AccountId, id: Id) -> (amount: Balance)
        ensures
            amount == self.ledger().balance_of(owner, id),
            self.ledger().valid(),
    ;

    /// The supply of a category, or, for `None`, the number of categories in
    /// circulation.
    fn total_supply(&self, id: Option<Id>) -> (amount: Balance)
        ensures
            amount as nat == self.ledger().total_supply(id),
            self.ledger().valid(),
    ;

    /// How much of `id` that `owner` holds `spender` may still move.
    fn allowance(&self, owner: AccountId, id: Id, spender: AccountId) -> (amount: Balance)
        ensures
            amount == self.ledger().allowance(owner, id, spender),
            self.ledger().valid(),
    ;

    /// Whether `owner` has approved `operator` for all it holds.
    fn is_approved_for_all(&self, owner: AccountId, operator: AccountId) -> (approved: bool)
        ensures
            approved == self.ledger().approved_for_all(owner, operator),
            self.ledger().valid(),
    ;

    /// `caller` sets what `spender` may move of what it holds of `id` to
    /// `amount`, in place of what it was. Fails with `NotAllowed` if the
    /// spender is the caller or the zero account, and with `Overflow` if the
    /// table of allowances has no room for a new entry.
    fn approve<E: Transfer>(
        &mut self,
        ext: &E,
        caller: AccountId,
        spender: AccountId,
        id: Id,
        amount: Balance,
    ) -> (result: Result<(), PSP1155Error>)
        ensures
            final(self).ledger().valid(),
            match old(self).ledger().check_approve(caller, spender, id) {
                Err(e) => result == Err::<(), PSP1155Error>(e) && final(self).ledger() == old(
                    self,
                ).ledger(),
                Ok(_) => result is Ok && final(self).ledger() == old(self).ledger().with_allowance(
                    caller,
                    id,
                    spender,
                    amount,
                ),
            },
    ;

    /// `caller` approves `operator`, or withdraws the approval, for all it
    /// holds. Fails with `NotAllowed` if the operator is the caller, and
    /// with `Overflow` if the table of operators has no room for a new pair.
    fn set_approval_for_all<E: Transfer>(
        &mut self,
        ext: &E,
        caller: AccountId,
        operator: AccountId,
        approved: bool,
    ) -> (result: Result<(), PSP1155Error>)
        ensures
            final(self).ledger().valid(),
            match old(self).ledger().check_approve_for_all(caller, operator) {
                Err(e) => result == Err::<(), PSP1155Error>(e) && final(self).ledger() == old(
                    self,
                ).ledger(),
                Ok(_) => result is Ok && final(self).ledger() == old(self).ledger().with_operator(
                    caller,
                    operator,
                    approved,
                ),
            },
    ;

    /// `caller` moves each amount of `items` from `from` to `to`.
    ///
    /// Fails with `NotAllowed`, and changes nothing, if `to` is the zero
    /// account. Otherwise the extension is asked, the items are moved in
    /// order as [`Holdings::transfer_item`] says, and the extension judges
    /// the whole.
    fn transfer_batch<E: Transfer>(
        &mut self,
        ext: &E,
        caller: AccountId,
        from: AccountId,
        to: AccountId,
        items: Vec<(Id, Balance)>,
    ) -> (result: Result<(), PSP1155Error>)
        ensures
            final(self).ledger().valid(),
            (final(self).ledger(), result) == batch_outcome(
                old(self).ledger(),
                Movement::Transfer { caller, from, to },
                items@,
                ext.before_verdict(Some(from), Some(to), items@),
                ext.after_verdict(Some(from), Some(to), items@),
            ),
    ;

    /// Creates each amount of `items` for `to`.
    ///
    /// Fails with `NotAllowed`, and changes nothing, if `to` is the zero
    /// account. Otherwise the extension is asked, the items are minted in
    /// order as [`Holdings::mint_item`] says, and the extension judges the
    /// whole.
    fn _mint_batch<E: Transfer>(
        &mut self,
        ext: &E,
        to: AccountId,
        items: Vec<(Id, Balance)>,
    ) -> (result: Result<(), PSP1155Error>)
        ensures
            final(self).ledger().valid(),
            (final(self).ledger(), result) == batch_outcome(
                old(self).ledger(),
                Movement::Mint { to },
                items@,
                ext.before_verdict(None, Some(to), items@),
                ext.after_verdict(None, Some(to), items@),
            ),
    ;

    /// Destroys each amount of `items` from what `from` holds: the extension
    /// is asked, the items are burned in order as [`Holdings::burn_item`]
    /// says, and the extension judges the whole.
    fn _burn_batch<E: Transfer>(
        &mut self,
        ext: &E,
        from: AccountId,
        items: Vec<(Id, Balance)>,
    ) -> (result: Result<(), PSP1155Error>)
        ensures
            final(self).ledger().valid(),
            (final(self).ledger(), result) == batch_outcome(
                old(self).ledger(),
                Movement::Burn { from },
                items@,
                ext.before_verdict(Some(from), None, items@),
                ext.after_verdict(Some(from), None, items@),
            ),
    ;

    /// Destroys `amount` of what `from` holds of `id`: the batch of this one
    /// item.
    fn _burn<E: Transfer>(
        &mut self,
        ext: &E,
        from: AccountId,
        id: Id,
        amount: Balance,
    ) -> (result: Result<(), PSP1155Error>)
        ensures
            final(self).ledger().valid(),
            (final(self).ledger(), result) == batch_outcome(
                old(self).ledger(),
                Movement::Burn { from },
                seq![(id, amount)],
                ext.before_verdict(Some(from), None, seq![(id, amount)]),
                ext.after_verdict(Some(from), None, seq![(id, amount)]),
            ),
    ;

    /// Creates `amount` of `id` for `to`, without asking anyone: what
    /// [`Holdings::mint_item`] says. On failure nothing changes.
    fn _mint_to(&mut self, to: AccountId, id: Id, amount: Balance) -> (result: Result<
        (),
        PSP1155Error,
    >)
        ensures
            final(self).ledger().valid(),
            stepped(
                old(self).ledger().mint_item(to, id, amount),
                old(self).ledger(),
                final(self).ledger(),
                result,
            ),
    ;

    /// Destroys `amount` of what `from` holds of `id`, without asking
    /// anyone: what [`Holdings::burn_item`] says. On failure nothing
    /// changes.
    fn _burn_from(&mut self, from: AccountId, id: Id, amount: Balance) -> (result: Result<
        (),
        PSP1155Error,
    >)
        ensures
            final(self).ledger().valid(),
            stepped(
                old(self).ledger().burn_item(from, id, amount),
                old(self).ledger(),
                final(self).ledger(),
                result,
            ),
    ;

    /// Moves `amount` of `id` from `from` to `to` at the request of
    /// `caller`, without asking anyone: what [`Holdings::transfer_item`]
    /// says. On failure nothing changes.
    fn _transfer_from(
        &mut self,
        caller: AccountId,
        from: AccountId,
        to: AccountId,
        id: Id,
        amount: Balance,
    ) -> (result: Result<(), PSP1155Error>)
        ensures
            final(self).ledger().valid(),
            stepped(
                old(self).ledger().transfer_item(caller, from, to, id, amount),
                old(self).ledger(),
                final(self).ledger(),
                result,
            ),
    ;
}

} // verus!
