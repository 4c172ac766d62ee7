//! The stored form of the multi-category ledger.

use crate::account::{is_zero, same_account, AccountId, Balance, Id};
use crate::errors::PSP1155Error;
use crate::psp1155::extension::Transfer;
use crate::psp1155::ledger::PSP1155;
use crate::psp1155::model::{Holdings, Movement};
use crate::psp1155::sums::{
    held, lemma_balance_within_held, lemma_held_empty, lemma_held_insert, lemma_two_within_held,
};
use crate::storage::{
    allowance_entries, balance_entries, operator_entries, supply_entries, AllowanceTable,
    BalanceTable, OperatorTable, SupplyTable,
};
use vstd::prelude::*;

verus! {

/// The tables of the multi-category ledger.
pub struct PSP1155Data {
    balances: BalanceTable,
    allowances: AllowanceTable,
    operator_approvals: OperatorTable,
    supply: SupplyTable,
}

impl View for PSP1155Data {
    type V = Holdings;

    closed spec fn view(&self) -> Holdings {
        Holdings {
            balances: balance_entries(self.balances),
            allowances: allowance_entries(self.allowances),
            operators: operator_entries(self.operator_approvals),
            supply: supply_entries(self.supply),
        }
    }
}

/// Writes the supply of `id`: a category of which nothing is left loses its
/// entry.
fn write_supply(supply: &mut SupplyTable, id: Id, amount: Balance)
    requires
        amount == 0 || supply_entries(*old(supply)).contains_key(id) || supply_entries(
            *old(supply),
        ).dom().len() < u32::MAX,
    ensures
        supply_entries(*final(supply)) == (if amount == 0 {
            supply_entries(*old(supply)).remove(id)
        } else {
            supply_entries(*old(supply)).insert(id, amount)
        }),
{
    if amount == 0 {
        supply.take(&id);
    } else {
        supply.insert(id, amount);
    }
}

impl PSP1155Data {
    /// The invariant of the stored ledger: what it records is valid.
    #[verifier::type_invariant]
    closed spec fn wf(self) -> bool {
        self@.valid()
    }

    /// A ledger without balances and without approvals.
    pub fn new() -> (data: PSP1155Data)
        ensures
            data@ == Holdings::empty(),
            data@.valid(),
    {
        proof {
            assert forall|id: Id| #[trigger]
                held(Map::<(AccountId, Id), Balance>::empty(), id) == 0 by {
                lemma_held_empty(id);
            }
        }
        PSP1155Data {
            balances: BalanceTable::new(),
            allowances: AllowanceTable::new(),
            operator_approvals: OperatorTable::new(),
            supply: SupplyTable::new(),
        }
    }

    /// Takes the tables out of the ledger, to change them: while they are
    /// changed they need not fit together. The ledger is left empty until
    /// [`PSP1155Data::put`] gives it the tables back.
    fn take(&mut self) -> (tables: (BalanceTable, AllowanceTable, OperatorTable, SupplyTable))
        ensures
            balance_entries(tables.0) == old(self)@.balances,
            allowance_entries(tables.1) == old(self)@.allowances,
            operator_entries(tables.2) == old(self)@.operators,
            supply_entries(tables.3) == old(self)@.supply,
            old(self)@.valid(),
    {
        proof {
            use_type_invariant(&*self);
        }
        let mut taken = PSP1155Data::new();
        std::mem::swap(self, &mut taken);
        let PSP1155Data { balances, allowances, operator_approvals, supply } = taken;
        (balances, allowances, operator_approvals, supply)
    }

    /// Gives the ledger its tables, which record what is valid.
    fn put(
        &mut self,
        balances: BalanceTable,
        allowances: AllowanceTable,
        operator_approvals: OperatorTable,
        supply: SupplyTable,
    )
        requires
            (Holdings {
                balances: balance_entries(balances),
                allowances: allowance_entries(allowances),
                operators: operator_entries(operator_approvals),
                supply: supply_entries(supply),
            }).valid(),
        ensures
            final(self)@ == (Holdings {
                balances: balance_entries(balances),
                allowances: allowance_entries(allowances),
                operators: operator_entries(operator_approvals),
                supply: supply_entries(supply),
            }),
    {
        *self = PSP1155Data { balances, allowances, operator_approvals, supply };
    }

    /// What `owner` holds of `id`, as the table has it.
    fn balance(&self, owner: &AccountId, id: &Id) -> (amount: Balance)
        ensures
            amount == self@.balance_of(*owner, *id),
    {
        match self.balances.get(owner, id) {
            Some(amount) => amount,
            None => 0,
        }
    }

    /// How much of `id` is in circulation, as the table has it.
    fn supplied(&self, id: &Id) -> (amount: Balance)
        ensures
            amount == self@.supply_of(*id),
    {
        match self.supply.get(id) {
            Some(amount) => amount,
            None => 0,
        }
    }

    /// Whether the table of balances has room for what `owner` holds of `id`.
    fn has_room_for_balance(&self, owner: &AccountId, id: &Id) -> (room: bool)
        ensures
            room == self@.room_for_balance(*owner, *id),
    {
        self.balances.get(owner, id).is_some() || self.balances.len() < u32::MAX
    }

    /// What `movement` does with one item; on failure nothing changes.
    fn apply(&mut self, movement: &Movement, id: Id, amount: Balance) -> (result: Result<
        (),
        PSP1155Error,
    >)
        ensures
            final(self)@.valid(),
            crate::psp1155::ledger::stepped(
                old(self)@.apply(*movement, id, amount),
                old(self)@,
                final(self)@,
                result,
            ),
    {
        match movement {
            Movement::Mint { to } => self._mint_to(*to, id, amount),
            Movement::Burn { from } => self._burn_from(*from, id, amount),
            Movement::Transfer { caller, from, to } => self._transfer_from(
                *caller,
                *from,
                *to,
                id,
                amount,
            ),
        }
    }

    /// Applies the items of a batch in order, up to the first that fails,
    /// without asking anyone: the ledger and the result are what
    /// [`Holdings::run`] gives.
    pub fn run_batch(&mut self, movement: &Movement, items: &Vec<(Id, Balance)>) -> (result: Result<
        (),
        PSP1155Error,
    >)
        ensures
            final(self)@.valid(),
            (final(self)@, result) == old(self)@.run(*movement, items@),
    {
        proof {
            use_type_invariant(&*self);
        }
        let ghost start = self@;
        let mut i: usize = 0;
        assert(items@.subrange(0, items@.len() as int) =~= items@);
        while i < items.len()
            invariant
                i <= items.len(),
                self@.valid(),
                start == old(self)@,
                self@.run(*movement, items@.subrange(i as int, items@.len() as int)) == start.run(
                    *movement,
                    items@,
                ),
            decreases items.len() - i,
        {
            let ghost rest = items@.subrange(i as int, items@.len() as int);
            let ghost here = self@;
            let (id, amount) = items[i];
            assert(rest[0] == items@[i as int]);
            assert(rest.drop_first() =~= items@.subrange(i as int + 1, items@.len() as int));
            match self.apply(movement, id, amount) {
                Err(e) => {
                    assert(here.run(*movement, rest) == (here, Err::<(), PSP1155Error>(e)));
                    return Err(e);
                },
                Ok(_) => {},
            }
            i += 1;
        }
        assert(items@.subrange(i as int, items@.len() as int).len() == 0);
        Ok(())
    }

    /// A batch with its extension points: the request is checked, the
    /// extension asked, the batch run, the extension told.
    fn batch<E: Transfer>(
        &mut self,
        ext: &E,
        movement: Movement,
        items: Vec<(Id, Balance)>,
    ) -> (result: Result<(), PSP1155Error>)
        ensures
            final(self)@.valid(),
            (final(self)@, result) == crate::psp1155::model::batch_outcome(
                old(self)@,
                movement,
                items@,
                ext.before_verdict(movement.source(), movement.target(), items@),
                ext.after_verdict(movement.source(), movement.target(), items@),
            ),
    {
        proof {
            use_type_invariant(&*self);
        }
        let (from, to) = match movement {
            Movement::Mint { to } => (None, Some(to)),
            Movement::Burn { from } => (Some(from), None),
            Movement::Transfer { from, to, .. } => (Some(from), Some(to)),
        };
        match &to {
            Some(account) => {
                if is_zero(account) {
                    return Err(PSP1155Error::NotAllowed);
                }
            },
            None => {},
        }
        ext._before_token_transfer(from.as_ref(), to.as_ref(), &items)?;
        self.run_batch(&movement, &items)?;
        ext._after_token_transfer(from.as_ref(), to.as_ref(), &items)?;
        ext._emit_transfer_batch_event(from, to, &items);
        Ok(())
    }
}

impl Default for PSP1155Data {
    /// A ledger without balances and without approvals.
    fn default() -> (data: PSP1155Data)
        ensures
            data@ == Holdings::empty(),
            data@.valid(),
    {
        PSP1155Data::new()
    }
}

impl PSP1155 for PSP1155Data {
    open spec fn ledger(&self) -> Holdings {
        self@
    }

    fn balance_of(&self, owner: AccountId, id: Id) -> (amount: Balance) {
        proof {
            use_type_invariant(self);
        }
        self.balance(&owner, &id)
    }

    fn total_supply(&self, id: Option<Id>) -> (amount: Balance) {
        proof {
            use_type_invariant(self);
        }
        match id {
            Some(id) => self.supplied(&id),
            None => self.supply.len() as Balance,
        }
    }

    fn allowance(&self, owner: AccountId, id: Id, spender: AccountId) -> (amount: Balance) {
        proof {
            use_type_invariant(self);
        }
        match self.allowances.get(&owner, &id, &spender) {
            Some(amount) => amount,
            None => 0,
        }
    }

    fn is_approved_for_all(&self, owner: AccountId, operator: AccountId) -> (approved: bool) {
        proof {
            use_type_invariant(self);
        }
        match self.operator_approvals.get(&owner, &operator) {
            Some(approved) => approved,
            None => false,
        }
    }

    fn approve<E: Transfer>(
        &mut self,
        ext: &E,
        caller: AccountId,
        spender: AccountId,
        id: Id,
        amount: Balance,
    ) -> (result: Result<(), PSP1155Error>) {
        proof {
            use_type_invariant(&*self);
        }
        if same_account(&spender, &caller) || is_zero(&spender) {
            return Err(PSP1155Error::NotAllowed);
        }
        if self.allowances.get(&caller, &id, &spender).is_none() && self.allowances.len()
            == u32::MAX {
            return Err(PSP1155Error::Overflow);
        }
        let (balances, mut allowances, operators, supply) = self.take();
        allowances.insert(caller, id, spender, amount);
        self.put(balances, allowances, operators, supply);
        ext._emit_approval_event(caller, spender, id, amount);
        Ok(())
    }

    fn set_approval_for_all<E: Transfer>(
        &mut self,
        ext: &E,
        caller: AccountId,
        operator: AccountId,
        approved: bool,
    ) -> (result: Result<(), PSP1155Error>) {
        proof {
            use_type_invariant(&*self);
        }
        if same_account(&operator, &caller) {
            return Err(PSP1155Error::NotAllowed);
        }
        if self.operator_approvals.get(&caller, &operator).is_none()
            && self.operator_approvals.len() == u32::MAX {
            return Err(PSP1155Error::Overflow);
        }
        let (balances, allowances, mut operators, supply) = self.take();
        operators.insert(caller, operator, approved);
        self.put(balances, allowances, operators, supply);
        ext._emit_approval_for_all_event(caller, operator, approved);
        Ok(())
    }

    fn transfer_batch<E: Transfer>(
        &mut self,
        ext: &E,
        caller: AccountId,
        from: AccountId,
        to: AccountId,
        items: Vec<(Id, Balance)>,
    ) -> (result: Result<(), PSP1155Error>) {
        self.batch(ext, Movement::Transfer { caller, from, to }, items)
    }

    fn _mint_batch<E: Transfer>(
        &mut self,
        ext: &E,
        to: AccountId,
        items: Vec<(Id, Balance)>,
    ) -> (result: Result<(), PSP1155Error>) {
        self.batch(ext, Movement::Mint { to }, items)
    }

    fn _burn_batch<E: Transfer>(
        &mut self,
        ext: &E,
        from: AccountId,
        items: Vec<(Id, Balance)>,
    ) -> (result: Result<(), PSP1155Error>) {
        self.batch(ext, Movement::Burn { from }, items)
    }

    fn _burn<E: Transfer>(
        &mut self,
        ext: &E,
        from: AccountId,
        id: Id,
        amount: Balance,
    ) -> (result: Result<(), PSP1155Error>) {
        let mut items: Vec<(Id, Balance)> = Vec::new();
        items.push((id, amount));
        assert(items@ =~= seq![(id, amount)]);
        self.batch(ext, Movement::Burn { from }, items)
    }

    fn _mint_to(&mut self, to: AccountId, id: Id, amount: Balance) -> (result: Result<
        (),
        PSP1155Error,
    >) {
        proof {
            use_type_invariant(&*self);
        }
        if is_zero(&to) {
            return Err(PSP1155Error::NotAllowed);
        }
        if amount == 0 {
            return Ok(());
        }
        let balance = self.balance(&to, &id);
        let supply = self.supplied(&id);
        let new_balance = match balance.checked_add(amount) {
            Some(sum) => sum,
            None => {
                return Err(PSP1155Error::Overflow);
            },
        };
        let new_supply = match supply.checked_add(amount) {
            Some(sum) => sum,
            None => {
                return Err(PSP1155Error::Overflow);
            },
        };
        if !self.has_room_for_balance(&to, &id) {
            return Err(PSP1155Error::Overflow);
        }
        if self.supply.get(&id).is_none() && self.supply.len() == u32::MAX {
            return Err(PSP1155Error::Overflow);
        }
        proof {
            lemma_held_insert(self@.balances, to, id, new_balance);
        }
        let (mut balances, allowances, operators, mut supply) = self.take();
        balances.insert(to, id, new_balance);
        write_supply(&mut supply, id, new_supply);
        self.put(balances, allowances, operators, supply);
        Ok(())
    }

    fn _burn_from(&mut self, from: AccountId, id: Id, amount: Balance) -> (result: Result<
        (),
        PSP1155Error,
    >) {
        proof {
            use_type_invariant(&*self);
        }
        if amount == 0 {
            return Ok(());
        }
        let balance = self.balance(&from, &id);
        if balance < amount {
            return Err(PSP1155Error::InsufficientBalance);
        }
        let supply = self.supplied(&id);
        proof {
            lemma_balance_within_held(self@.balances, from, id);
            lemma_held_insert(self@.balances, from, id, (balance - amount) as Balance);
        }
        let (mut balances, allowances, operators, mut supplies) = self.take();
        balances.insert(from, id, balance - amount);
        write_supply(&mut supplies, id, supply - amount);
        self.put(balances, allowances, operators, supplies);
        Ok(())
    }

    fn _transfer_from(
        &mut self,
        caller: AccountId,
        from: AccountId,
        to: AccountId,
        id: Id,
        amount: Balance,
    ) -> (result: Result<(), PSP1155Error>) {
        proof {
            use_type_invariant(&*self);
        }
        if is_zero(&to) {
            return Err(PSP1155Error::NotAllowed);
        }
        let unlimited = same_account(&caller, &from) || self.is_approved_for_all(from, caller);
        let allowed = self.allowance(from, id, caller);
        if !unlimited && allowed < amount {
            return Err(PSP1155Error::NotApproved);
        }
        let balance = self.balance(&from, &id);
        if balance < amount {
            return Err(PSP1155Error::InsufficientBalance);
        }
        if amount == 0 {
            return Ok(());
        }
        let moves = !same_account(&from, &to);
        if moves && !self.has_room_for_balance(&to, &id) {
            return Err(PSP1155Error::Overflow);
        }
        let received = self.balance(&to, &id);
        proof {
            let before = self@.balances;
            if from != to {
                lemma_two_within_held(before, from, to, id);
                lemma_held_insert(before, from, id, (balance - amount) as Balance);
                lemma_held_insert(
                    before.insert((from, id), (balance - amount) as Balance),
                    to,
                    id,
                    (received + amount) as Balance,
                );
            }
        }
        let (mut balances, mut allowances, operators, supply) = self.take();
        if !unlimited {
            allowances.insert(from, id, caller, allowed - amount);
        }
        if moves {
            balances.insert(from, id, balance - amount);
            balances.insert(to, id, received + amount);
        }
        self.put(balances, allowances, operators, supply);
        Ok(())
    }
}

} // verus!
