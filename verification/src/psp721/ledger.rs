//! The operations of the unique-asset ledger.

use crate::account::{AccountId, Id};
use crate::errors::PSP721Error;
use crate::psp721::extension::Transfer;
use crate::psp721::model::{outcome, token_moved, Assets};
use crate::psp721::receiver::{reading, settled, PSP721Receiver};
use vstd::prelude::*;

verus! {

/// A ledger of unique assets.
///
/// The caller of an operation is the account that the host names as the
/// origin of the request; the ledger takes it as given. Operations that
/// change the ledger take the extension of the embedding contract, which is
/// asked before a token moves and told after it. What a ledger records is
/// valid at all times ([`Assets::valid`]); the operations say so of the
/// ledger they leave.
pub trait PSP721 {
    /// What the ledger records.
    spec fn ledger(&self) -> Assets;

    /// How many tokens `owner` owns.
    fn balance_of(&self, owner: AccountId) -> (count: u32)
        ensures
            count as nat == self.ledger().balance(owner),
            self.ledger().valid(),
    ;

    /// The owner of `id`, if the token exists.
    fn owner_of(&self, id: Id) -> (owner: Option<AccountId>)
        ensures
            owner == self.ledger().owner_of(id),
            self.ledger().valid(),
    ;

    /// The account approved for `id`, if there is one.
    fn get_approved(&self, id: Id) -> (spender: Option<AccountId>)
        ensures
            spender == self.ledger().approved(id),
            self.ledger().valid(),
    ;

    /// Whether `owner` has approved `operator` for all its tokens.
    fn is_approved_for_all(&self, owner: AccountId, operator: AccountId) -> (approved: bool)
        ensures
            approved == self.ledger().approved_for_all(owner, operator),
            self.ledger().valid(),
    ;

    /// `caller` approves `to`, or withdraws the approval, for all its tokens.
    /// Fails with `NotAllowed` if `to` is the caller, and with `Overflow` if
    /// the table of operators has no room for a new pair.
    fn set_approval_for_all<E: Transfer>(
        &mut self,
        ext: &E,
        caller: AccountId,
        to: AccountId,
        approved: bool,
    ) -> (result: Result<(), PSP721Error>)
        ensures
            final(self).ledger().valid(),
            match old(self).ledger().check_approve_for_all(caller, to) {
                Err(e) => result == Err::<(), PSP721Error>(e) && final(self).ledger() == old(
                    self,
                ).ledger(),
                Ok(_) => result is Ok && final(self).ledger() == old(self).ledger().with_operator(
                    caller,
                    to,
                    approved,
                ),
            },
    ;

    /// `caller` approves `to` for the token `id`, in place of whoever was
    /// approved before. Fails with `NotAllowed` unless the caller is the
    /// owner of the token or an operator of the owner, and if `to` is the
    /// zero account or the caller.
    fn approve<E: Transfer>(
        &mut self,
        ext: &E,
        caller: AccountId,
        to: AccountId,
        id: Id,
    ) -> (result: Result<(), PSP721Error>)
        ensures
            final(self).ledger().valid(),
            match old(self).ledger().check_approve(caller, to, id) {
                Err(e) => result == Err::<(), PSP721Error>(e) && final(self).ledger() == old(
                    self,
                ).ledger(),
                Ok(_) => result is Ok && final(self).ledger() == old(self).ledger().with_approval(
                    id,
                    to,
                ),
            },
    ;

    /// `caller` moves the token `id` from `from` to `to`.
    ///
    /// Fails with `TokenNotFound` if the token has no owner, with
    /// `NotApproved` if the caller is neither the owner, the approved
    /// spender nor an operator of the owner, with `NotOwner` if `from` is not
    /// the owner, and with `NotAllowed` if `to` is the zero account; nothing
    /// changes then. Otherwise the extension is asked, the token moves and
    /// its approval is cleared, and the extension judges the move.
    fn transfer_from<E: Transfer>(
        &mut self,
        ext: &E,
        caller: AccountId,
        from: AccountId,
        to: AccountId,
        id: Id,
    ) -> (result: Result<(), PSP721Error>)
        ensures
            final(self).ledger().valid(),
            (final(self).ledger(), result) == outcome(
                old(self).ledger().check_transfer(caller, from, to, id),
                ext.before_verdict(Some(from), Some(to), id),
                ext.after_verdict(Some(from), Some(to), id),
                old(self).ledger(),
                old(self).ledger().transferred(id, to),
            ),
            result is Ok ==> token_moved(
                old(self).ledger(),
                final(self).ledger(),
                Some(from),
                Some(to),
            ),
    ;

    /// As [`PSP721::transfer_from`], and the recipient is told of the token
    /// once the ledger names it as owner: it is handed the caller as
    /// operator, `from`, `id` and `data`. If the recipient rejects the token,
    /// or cannot be asked for another reason than being a plain account, the
    /// operation fails with `CallFailed`, the extension is not asked to
    /// judge, and the token stays moved. So the ledger ends as after a plain
    /// transfer; the result is that of a plain transfer, unless the token
    /// moved and the recipient made the operation fail.
    fn safe_transfer_from<E: Transfer, R: PSP721Receiver>(
        &mut self,
        ext: &E,
        receiver: &mut R,
        caller: AccountId,
        from: AccountId,
        to: AccountId,
        id: Id,
        data: Vec<u8>,
    ) -> (result: Result<(), PSP721Error>)
        ensures
            final(self).ledger().valid(),
            ({
                let checked = old(self).ledger().check_transfer(caller, from, to, id);
                let vetoed = ext.before_verdict(Some(from), Some(to), id);
                let told = settled(reading(old(receiver).outcome(to, caller, from, id, data)));
                let plain = outcome(
                    checked,
                    vetoed,
                    ext.after_verdict(Some(from), Some(to), id),
                    old(self).ledger(),
                    old(self).ledger().transferred(id, to),
                );
                &&& final(self).ledger() == plain.0
                &&& result == (if checked is Ok && vetoed is Ok && told is Err {
                    told
                } else {
                    plain.1
                })
            }),
            result is Ok ==> token_moved(
                old(self).ledger(),
                final(self).ledger(),
                Some(from),
                Some(to),
            ),
    ;

    /// What [`PSP721::set_approval_for_all`] does.
    fn _approve_for_all<E: Transfer>(
        &mut self,
        ext: &E,
        caller: AccountId,
        to: AccountId,
        approved: bool,
    ) -> (result: Result<(), PSP721Error>)
        ensures
            final(self).ledger().valid(),
            match old(self).ledger().check_approve_for_all(caller, to) {
                Err(e) => result == Err::<(), PSP721Error>(e) && final(self).ledger() == old(
                    self,
                ).ledger(),
                Ok(_) => result is Ok && final(self).ledger() == old(self).ledger().with_operator(
                    caller,
                    to,
                    approved,
                ),
            },
    ;

    /// What [`PSP721::approve`] does.
    fn _approve_for<E: Transfer>(
        &mut self,
        ext: &E,
        caller: AccountId,
        to: AccountId,
        id: Id,
    ) -> (result: Result<(), PSP721Error>)
        ensures
            final(self).ledger().valid(),
            match old(self).ledger().check_approve(caller, to, id) {
                Err(e) => result == Err::<(), PSP721Error>(e) && final(self).ledger() == old(
                    self,
                ).ledger(),
                Ok(_) => result is Ok && final(self).ledger() == old(self).ledger().with_approval(
                    id,
                    to,
                ),
            },
    ;

    /// The owner of `id`, if the token exists.
    fn _owner_of(&self, id: &Id) -> (owner: Option<AccountId>)
        ensures
            owner == self.ledger().owner_of(*id),
            self.ledger().valid(),
    ;

    /// Whether `owner` has approved `operator` for all its tokens.
    fn _approved_for_all(&self, owner: AccountId, operator: AccountId) -> (approved: bool)
        ensures
            approved == self.ledger().approved_for_all(owner, operator),
            self.ledger().valid(),
    ;

    /// Whether `from` may move `id`: the token exists and `from`, which is
    /// not the zero account, is its owner, its approved spender or an
    /// operator of its owner. Of a token without owner nobody is approved.
    fn _approved_or_owner(&self, from: Option<AccountId>, id: &Id) -> (approved: bool)
        ensures
            approved == self.ledger().approved_or_owner(from, *id),
            self.ledger().valid(),
    ;

    /// `caller` moves `id` from `from` to `to`, without asking anyone: the
    /// owner changes, the approval of the token is cleared, the counts
    /// follow. Fails as [`PSP721::transfer_from`] does when the ledger's
    /// rules refuse the request, and changes nothing then.
    fn _transfer_token_from(
        &mut self,
        caller: AccountId,
        from: &AccountId,
        to: AccountId,
        id: Id,
    ) -> (result: Result<(), PSP721Error>)
        ensures
            final(self).ledger().valid(),
            match old(self).ledger().check_transfer(caller, *from, to, id) {
                Err(e) => result == Err::<(), PSP721Error>(e) && final(self).ledger() == old(
                    self,
                ).ledger(),
                Ok(_) => result is Ok && final(self).ledger() == old(self).ledger().transferred(
                    id,
                    to,
                ),
            },
            result is Ok ==> token_moved(
                old(self).ledger(),
                final(self).ledger(),
                Some(*from),
                Some(to),
            ),
    ;

    /// Gives the new token `id` to `to`. Fails with `TokenExists` if the
    /// token has an owner, with `NotAllowed` if `to` is the zero account, and
    /// with `Overflow` if the ledger holds as many tokens as it can count.
    fn _add_to(&mut self, to: AccountId, id: Id) -> (result: Result<(), PSP721Error>)
        ensures
            final(self).ledger().valid(),
            match old(self).ledger().check_add(to, id) {
                Err(e) => result == Err::<(), PSP721Error>(e) && final(self).ledger() == old(
                    self,
                ).ledger(),
                Ok(_) => result is Ok && final(self).ledger() == old(self).ledger().with_owner(
                    id,
                    to,
                ),
            },
            result is Ok ==> token_moved(
                old(self).ledger(),
                final(self).ledger(),
                None,
                Some(to),
            ),
    ;

    /// Takes the token `id` from `caller`, with its approval. Fails with
    /// `TokenNotFound` if the token has no owner and with `NotOwner` if the
    /// owner is another account.
    fn _remove_from(&mut self, caller: AccountId, id: Id) -> (result: Result<(), PSP721Error>)
        ensures
            final(self).ledger().valid(),
            match old(self).ledger().check_remove(caller, id) {
                Err(e) => result == Err::<(), PSP721Error>(e) && final(self).ledger() == old(
                    self,
                ).ledger(),
                Ok(_) => result is Ok && final(self).ledger() == old(self).ledger().without(id),
            },
            result is Ok ==> token_moved(
                old(self).ledger(),
                final(self).ledger(),
                Some(caller),
                None,
            ),
    ;

    /// Tells the recipient `to` of the token `id` that `operator` has moved
    /// to it from `from`, with `data`, and decides by what the call returns:
    /// `Ok` if the recipient accepts or is a plain account, `CallFailed` if
    /// it rejects or the call fails otherwise.
    fn _call_contract_transfer<R: PSP721Receiver>(
        &self,
        receiver: &mut R,
        operator: AccountId,
        from: AccountId,
        to: AccountId,
        id: Id,
        data: Vec<u8>,
    ) -> (result: Result<(), PSP721Error>)
        ensures
            result == settled(reading(old(receiver).outcome(to, operator, from, id, data))),
    ;

    /// Mints the token `id` to `caller`.
    fn _mint<E: Transfer>(&mut self, ext: &E, caller: AccountId, id: Id) -> (result: Result<
        (),
        PSP721Error,
    >)
        ensures
            final(self).ledger().valid(),
            (final(self).ledger(), result) == outcome(
                old(self).ledger().check_add(caller, id),
                ext.before_verdict(None, Some(caller), id),
                ext.after_verdict(None, Some(caller), id),
                old(self).ledger(),
                old(self).ledger().with_owner(id, caller),
            ),
            result is Ok ==> token_moved(
                old(self).ledger(),
                final(self).ledger(),
                None,
                Some(caller),
            ),
    ;

    /// Mints the token `id` to `to`: checks the request as
    /// [`PSP721::_add_to`] does, asks the extension, adds the token, and lets
    /// the extension judge.
    fn _mint_to<E: Transfer>(&mut self, ext: &E, to: AccountId, id: Id) -> (result: Result<
        (),
        PSP721Error,
    >)
        ensures
            final(self).ledger().valid(),
            (final(self).ledger(), result) == outcome(
                old(self).ledger().check_add(to, id),
                ext.before_verdict(None, Some(to), id),
                ext.after_verdict(None, Some(to), id),
                old(self).ledger(),
                old(self).ledger().with_owner(id, to),
            ),
            result is Ok ==> token_moved(
                old(self).ledger(),
                final(self).ledger(),
                None,
                Some(to),
            ),
    ;

    /// Burns the token `id` of `from`: checks the request as
    /// [`PSP721::_remove_from`] does, asks the extension, removes the token,
    /// and lets the extension judge.
    fn _burn_from<E: Transfer>(&mut self, ext: &E, from: AccountId, id: Id) -> (result: Result<
        (),
        PSP721Error,
    >)
        ensures
            final(self).ledger().valid(),
            (final(self).ledger(), result) == outcome(
                old(self).ledger().check_remove(from, id),
                ext.before_verdict(Some(from), None, id),
                ext.after_verdict(Some(from), None, id),
                old(self).ledger(),
                old(self).ledger().without(id),
            ),
            result is Ok ==> token_moved(
                old(self).ledger(),
                final(self).ledger(),
                Some(from),
                None,
            ),
    ;

    /// Burns the token `id` of `caller`.
    fn _burn<E: Transfer>(&mut self, ext: &E, caller: AccountId, id: Id) -> (result: Result<
        (),
        PSP721Error,
    >)
        ensures
            final(self).ledger().valid(),
            (final(self).ledger(), result) == outcome(
                old(self).ledger().check_remove(caller, id),
                ext.before_verdict(Some(caller), None, id),
                ext.after_verdict(Some(caller), None, id),
                old(self).ledger(),
                old(self).ledger().without(id),
            ),
            result is Ok ==> token_moved(
                old(self).ledger(),
                final(self).ledger(),
                Some(caller),
                None,
            ),
    ;
}

} // verus!
