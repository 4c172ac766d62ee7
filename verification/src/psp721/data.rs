//! The stored form of the unique-asset ledger, and how it relates to the
//! model.

use crate::account::{is_zero, same_account, zero_address, AccountId, Id};
use crate::errors::PSP721Error;
use crate::psp721::extension::Transfer;
use crate::psp721::ledger::PSP721;
use crate::psp721::receiver::{notification, settle, PSP721Receiver};
use crate::psp721::counts::{
    counts_agree, lemma_counts_bound, lemma_holdings_bound, lemma_holdings_insert,
    lemma_holdings_remove,
};
use crate::psp721::model::{holdings, Assets};
use crate::storage::{
    account_entries, count_entries, operator_entries, AccountTable, CountTable, OperatorTable,
};
use vstd::prelude::*;

verus! {

/// The tables of the unique-asset ledger.
pub struct PSP721Data {
    token_owner: AccountTable,
    token_approvals: AccountTable,
    owned_tokens_count: CountTable,
    operator_approvals: OperatorTable,
}

impl View for PSP721Data {
    type V = Assets;

    closed spec fn view(&self) -> Assets {
        Assets {
            owners: account_entries(self.token_owner),
            approvals: account_entries(self.token_approvals),
            operators: operator_entries(self.operator_approvals),
        }
    }
}

/// What the tables of a ledger hold when they fit together: what they record
/// is valid, and the counts agree with the owners.
pub open spec fn fit(ledger: Assets, counts: Map<AccountId, u32>) -> bool {
    ledger.valid() && counts_agree(ledger.owners, counts)
}

impl PSP721Data {
    /// The counts, as the table has them.
    closed spec fn counts(&self) -> Map<AccountId, u32> {
        count_entries(self.owned_tokens_count)
    }

    /// The invariant of the stored ledger: its tables fit together.
    #[verifier::type_invariant]
    closed spec fn wf(self) -> bool {
        fit(self@, self.counts())
    }

    /// A ledger without tokens and without approvals.
    pub fn new() -> (data: PSP721Data)
        ensures
            data@ == Assets::empty(),
            data@.valid(),
            forall|account: AccountId| (#[trigger] holdings(data@.owners, account)).len() == 0,
    {
        proof {
            assert forall|account: AccountId|
                (#[trigger] holdings(Map::<Id, AccountId>::empty(), account)).len() == 0 by {
                assert(holdings(Map::<Id, AccountId>::empty(), account) =~= Set::empty());
            }
        }
        PSP721Data {
            token_owner: AccountTable::new(),
            token_approvals: AccountTable::new(),
            owned_tokens_count: CountTable::new(),
            operator_approvals: OperatorTable::new(),
        }
    }

    /// Takes the tables out of the ledger, to change them: while they are
    /// changed they need not fit together. The ledger is left empty until
    /// [`PSP721Data::put`] gives it the tables back.
    fn take(&mut self) -> (tables: (AccountTable, AccountTable, CountTable, OperatorTable))
        ensures
            account_entries(tables.0) == old(self)@.owners,
            account_entries(tables.1) == old(self)@.approvals,
            count_entries(tables.2) == old(self).counts(),
            operator_entries(tables.3) == old(self)@.operators,
            fit(old(self)@, old(self).counts()),
    {
        proof {
            use_type_invariant(&*self);
        }
        let mut taken = PSP721Data::new();
        std::mem::swap(self, &mut taken);
        let PSP721Data { token_owner, token_approvals, owned_tokens_count, operator_approvals } =
            taken;
        (token_owner, token_approvals, owned_tokens_count, operator_approvals)
    }

    /// Gives the ledger its tables, which fit together.
    fn put(
        &mut self,
        token_owner: AccountTable,
        token_approvals: AccountTable,
        owned_tokens_count: CountTable,
        operator_approvals: OperatorTable,
    )
        requires
            fit(
                Assets {
                    owners: account_entries(token_owner),
                    approvals: account_entries(token_approvals),
                    operators: operator_entries(operator_approvals),
                },
                count_entries(owned_tokens_count),
            ),
        ensures
            final(self)@ == (Assets {
                owners: account_entries(token_owner),
                approvals: account_entries(token_approvals),
                operators: operator_entries(operator_approvals),
            }),
            final(self).counts() == count_entries(owned_tokens_count),
    {
        *self = PSP721Data { token_owner, token_approvals, owned_tokens_count, operator_approvals };
    }
}

impl Default for PSP721Data {
    /// A ledger without tokens and without approvals.
    fn default() -> (data: PSP721Data)
        ensures
            data@ == Assets::empty(),
            data@.valid(),
            forall|account: AccountId| (#[trigger] holdings(data@.owners, account)).len() == 0,
    {
        PSP721Data::new()
    }
}

impl PSP721Data {
    /// Whether `to` can be given the new token `id`; changes nothing.
    fn check_add(&self, to: &AccountId, id: &Id) -> (result: Result<(), PSP721Error>)
        ensures
            result == self@.check_add(*to, *id),
    {
        if self.token_owner.get(id).is_some() {
            return Err(PSP721Error::TokenExists);
        }
        if is_zero(to) {
            return Err(PSP721Error::NotAllowed);
        }
        if self.token_owner.len() == u32::MAX {
            return Err(PSP721Error::Overflow);
        }
        Ok(())
    }

    /// Whether `from` can give up the token `id`; changes nothing.
    fn check_remove(&self, from: &AccountId, id: &Id) -> (result: Result<(), PSP721Error>)
        ensures
            result == self@.check_remove(*from, *id),
    {
        match self.token_owner.get(id) {
            None => Err(PSP721Error::TokenNotFound),
            Some(owner) => {
                if same_account(&owner, from) {
                    Ok(())
                } else {
                    Err(PSP721Error::NotOwner)
                }
            },
        }
    }

    /// Whether `caller` can move the token `id` from `from` to `to`; changes
    /// nothing.
    fn check_transfer(
        &self,
        caller: AccountId,
        from: &AccountId,
        to: &AccountId,
        id: &Id,
    ) -> (result: Result<(), PSP721Error>)
        ensures
            result == self@.check_transfer(caller, *from, *to, *id),
    {
        match self.token_owner.get(id) {
            None => Err(PSP721Error::TokenNotFound),
            Some(owner) => {
                if !self._approved_or_owner(Some(caller), id) {
                    Err(PSP721Error::NotApproved)
                } else if !same_account(&owner, from) {
                    Err(PSP721Error::NotOwner)
                } else if is_zero(to) {
                    Err(PSP721Error::NotAllowed)
                } else {
                    Ok(())
                }
            },
        }
    }
}

impl PSP721 for PSP721Data {
    open spec fn ledger(&self) -> Assets {
        self@
    }

    fn balance_of(&self, owner: AccountId) -> (count: u32) {
        proof {
            use_type_invariant(self);
        }
        match self.owned_tokens_count.get(&owner) {
            Some(count) => count,
            None => 0,
        }
    }

    fn owner_of(&self, id: Id) -> (owner: Option<AccountId>) {
        self._owner_of(&id)
    }

    fn get_approved(&self, id: Id) -> (spender: Option<AccountId>) {
        proof {
            use_type_invariant(self);
        }
        self.token_approvals.get(&id)
    }

    fn is_approved_for_all(&self, owner: AccountId, operator: AccountId) -> (approved: bool) {
        self._approved_for_all(owner, operator)
    }

    fn set_approval_for_all<E: Transfer>(
        &mut self,
        ext: &E,
        caller: AccountId,
        to: AccountId,
        approved: bool,
    ) -> (result: Result<(), PSP721Error>) {
        self._approve_for_all(ext, caller, to, approved)
    }

    fn approve<E: Transfer>(
        &mut self,
        ext: &E,
        caller: AccountId,
        to: AccountId,
        id: Id,
    ) -> (result: Result<(), PSP721Error>) {
        self._approve_for(ext, caller, to, id)
    }

    fn transfer_from<E: Transfer>(
        &mut self,
        ext: &E,
        caller: AccountId,
        from: AccountId,
        to: AccountId,
        id: Id,
    ) -> (result: Result<(), PSP721Error>) {
        proof {
            use_type_invariant(&*self);
        }
        self.check_transfer(caller, &from, &to, &id)?;
        ext._before_token_transfer(Some(&from), Some(&to), &id)?;
        self._transfer_token_from(caller, &from, to, id)?;
        ext._after_token_transfer(Some(&from), Some(&to), &id)?;
        ext._emit_transfer_event(from, to, id);
        Ok(())
    }

    fn safe_transfer_from<E: Transfer, R: PSP721Receiver>(
        &mut self,
        ext: &E,
        receiver: &mut R,
        caller: AccountId,
        from: AccountId,
        to: AccountId,
        id: Id,
        data: Vec<u8>,
    ) -> (result: Result<(), PSP721Error>) {
        proof {
            use_type_invariant(&*self);
        }
        self.check_transfer(caller, &from, &to, &id)?;
        ext._before_token_transfer(Some(&from), Some(&to), &id)?;
        self._transfer_token_from(caller, &from, to, id)?;
        self._call_contract_transfer(receiver, caller, from, to, id, data)?;
        ext._after_token_transfer(Some(&from), Some(&to), &id)?;
        ext._emit_transfer_event(from, to, id);
        Ok(())
    }

    fn _approve_for_all<E: Transfer>(
        &mut self,
        ext: &E,
        caller: AccountId,
        to: AccountId,
        approved: bool,
    ) -> (result: Result<(), PSP721Error>) {
        proof {
            use_type_invariant(&*self);
        }
        if same_account(&to, &caller) {
            return Err(PSP721Error::NotAllowed);
        }
        if self.operator_approvals.get(&caller, &to).is_none() && self.operator_approvals.len()
            == u32::MAX {
            return Err(PSP721Error::Overflow);
        }
        let (owners, approvals, counts, mut operators) = self.take();
        operators.insert(caller, to, approved);
        self.put(owners, approvals, counts, operators);
        ext._emit_approval_for_all_event(caller, to, approved);
        Ok(())
    }

    fn _approve_for<E: Transfer>(
        &mut self,
        ext: &E,
        caller: AccountId,
        to: AccountId,
        id: Id,
    ) -> (result: Result<(), PSP721Error>) {
        let allowed = match self._owner_of(&id) {
            None => false,
            Some(owner) => same_account(&owner, &caller) || self._approved_for_all(owner, caller),
        };
        if !allowed || is_zero(&to) || same_account(&to, &caller) {
            return Err(PSP721Error::NotAllowed);
        }
        proof {
            let approvals = self@.approvals;
            let owners = self@.owners;
            if !approvals.contains_key(id) {
                assert(approvals.dom().subset_of(owners.dom().remove(id)));
                vstd::set_lib::lemma_len_subset(approvals.dom(), owners.dom().remove(id));
            }
        }
        let (owners, mut approvals, counts, operators) = self.take();
        approvals.insert(id, to);
        self.put(owners, approvals, counts, operators);
        ext._emit_approval_event(caller, to, id);
        Ok(())
    }

    fn _owner_of(&self, id: &Id) -> (owner: Option<AccountId>) {
        proof {
            use_type_invariant(self);
        }
        self.token_owner.get(id)
    }

    fn _approved_for_all(&self, owner: AccountId, operator: AccountId) -> (approved: bool) {
        proof {
            use_type_invariant(self);
        }
        match self.operator_approvals.get(&owner, &operator) {
            Some(approved) => approved,
            None => false,
        }
    }

    fn _approved_or_owner(&self, from: Option<AccountId>, id: &Id) -> (approved: bool) {
        proof {
            use_type_invariant(self);
        }
        let who = match from {
            None => {
                return false;
            },
            Some(who) => who,
        };
        if is_zero(&who) {
            return false;
        }
        let owner = match self._owner_of(id) {
            None => {
                return false;
            },
            Some(owner) => owner,
        };
        if same_account(&owner, &who) {
            return true;
        }
        let spender = match self.token_approvals.get(id) {
            None => false,
            Some(spender) => same_account(&spender, &who),
        };
        spender || self._approved_for_all(owner, who)
    }

    fn _transfer_token_from(
        &mut self,
        caller: AccountId,
        from: &AccountId,
        to: AccountId,
        id: Id,
    ) -> (result: Result<(), PSP721Error>) {
        proof {
            use_type_invariant(&*self);
        }
        self.check_transfer(caller, from, &to, &id)?;
        self._remove_from(*from, id)?;
        self._add_to(to, id)?;
        proof {
            let before = old(self)@;
            assert(before.owners.remove(id).insert(id, to) =~= before.owners.insert(id, to));
        }
        Ok(())
    }

    fn _add_to(&mut self, to: AccountId, id: Id) -> (result: Result<(), PSP721Error>) {
        proof {
            use_type_invariant(&*self);
        }
        self.check_add(&to, &id)?;
        let count = match self.owned_tokens_count.get(&to) {
            Some(count) => count,
            None => 0,
        };
        proof {
            lemma_holdings_bound(self@.owners, to);
            lemma_counts_bound(self@.owners, self.counts());
            lemma_holdings_insert(self@.owners, id, to);
        }
        let (mut owners, approvals, mut counts, operators) = self.take();
        owners.insert(id, to);
        counts.insert(to, count + 1);
        self.put(owners, approvals, counts, operators);
        Ok(())
    }

    fn _remove_from(&mut self, caller: AccountId, id: Id) -> (result: Result<(), PSP721Error>) {
        proof {
            use_type_invariant(&*self);
        }
        self.check_remove(&caller, &id)?;
        proof {
            lemma_holdings_bound(self@.owners, caller);
            lemma_holdings_remove(self@.owners, id);
        }
        let (mut owners, mut approvals, mut counts, operators) = self.take();
        match counts.get(&caller) {
            Some(count) => {
                if count == 1 {
                    counts.take(&caller);
                } else {
                    counts.insert(caller, count - 1);
                }
            },
            None => {},
        }
        owners.take(&id);
        approvals.take(&id);
        self.put(owners, approvals, counts, operators);
        Ok(())
    }

    fn _call_contract_transfer<R: PSP721Receiver>(
        &self,
        receiver: &mut R,
        operator: AccountId,
        from: AccountId,
        to: AccountId,
        id: Id,
        data: Vec<u8>,
    ) -> (result: Result<(), PSP721Error>) {
        let outcome = receiver.call_on_psp721_received(to, operator, from, id, data);
        let read = notification(outcome);
        settle(&read)
    }

    fn _mint<E: Transfer>(&mut self, ext: &E, caller: AccountId, id: Id) -> (result: Result<
        (),
        PSP721Error,
    >) {
        self._mint_to(ext, caller, id)
    }

    fn _mint_to<E: Transfer>(&mut self, ext: &E, to: AccountId, id: Id) -> (result: Result<
        (),
        PSP721Error,
    >) {
        proof {
            use_type_invariant(&*self);
        }
        self.check_add(&to, &id)?;
        ext._before_token_transfer(None, Some(&to), &id)?;
        self._add_to(to, id)?;
        ext._after_token_transfer(None, Some(&to), &id)?;
        ext._emit_transfer_event(zero_address(), to, id);
        Ok(())
    }

    fn _burn_from<E: Transfer>(&mut self, ext: &E, from: AccountId, id: Id) -> (result: Result<
        (),
        PSP721Error,
    >) {
        proof {
            use_type_invariant(&*self);
        }
        self.check_remove(&from, &id)?;
        ext._before_token_transfer(Some(&from), None, &id)?;
        self._remove_from(from, id)?;
        ext._after_token_transfer(Some(&from), None, &id)?;
        ext._emit_transfer_event(from, zero_address(), id);
        Ok(())
    }

    fn _burn<E: Transfer>(&mut self, ext: &E, caller: AccountId, id: Id) -> (result: Result<
        (),
        PSP721Error,
    >) {
        self._burn_from(ext, caller, id)
    }
}

} // verus!
