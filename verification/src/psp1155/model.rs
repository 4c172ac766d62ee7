//! The mathematical model of the multi-category ledger.

use crate::account::{is_zero_account, AccountId, Balance, Id};
use crate::errors::PSP1155Error;
use crate::psp1155::sums::{balance_at, held};
use vstd::prelude::*;

verus! {

/// What the multi-category ledger records.
pub struct Holdings {
    /// What each owner holds of each category. An owner without entry holds
    /// nothing; an entry may hold zero.
    pub balances: Map<(AccountId, Id), Balance>,
    /// How much of a category a spender may still move for an owner, by
    /// (owner, category, spender).
    pub allowances: Map<(AccountId, Id, AccountId), Balance>,
    /// What each owner has said of each operator.
    pub operators: Map<(AccountId, AccountId), bool>,
    /// How much of each category is in circulation. A category of which
    /// nothing is in circulation has no entry.
    pub supply: Map<Id, Balance>,
}

/// A movement of balances: what a batch does with each of its items.
pub enum Movement {
    /// Creates the amounts for `to`.
    Mint { to: AccountId },
    /// Destroys the amounts held by `from`.
    Burn { from: AccountId },
    /// Moves the amounts from `from` to `to`, at the request of `caller`.
    Transfer { caller: AccountId, from: AccountId, to: AccountId },
}

impl Movement {
    /// The account that gives, if the movement has one.
    pub open spec fn source(self) -> Option<AccountId> {
        match self {
            Movement::Mint { .. } => None,
            Movement::Burn { from } => Some(from),
            Movement::Transfer { from, .. } => Some(from),
        }
    }

    /// The account that receives, if the movement has one.
    pub open spec fn target(self) -> Option<AccountId> {
        match self {
            Movement::Mint { to } => Some(to),
            Movement::Burn { .. } => None,
            Movement::Transfer { to, .. } => Some(to),
        }
    }

    /// Whether the movement can be asked for at all: the zero account
    /// receives nothing.
    pub open spec fn check(self) -> Result<(), PSP1155Error> {
        match self.target() {
            Some(to) => if is_zero_account(to) {
                Err(PSP1155Error::NotAllowed)
            } else {
                Ok(())
            },
            None => Ok(()),
        }
    }
}

impl Holdings {
    /// The ledger without balances and without approvals.
    pub open spec fn empty() -> Holdings {
        Holdings {
            balances: Map::empty(),
            allowances: Map::empty(),
            operators: Map::empty(),
            supply: Map::empty(),
        }
    }

    /// What `owner` holds of `id`.
    pub open spec fn balance_of(self, owner: AccountId, id: Id) -> Balance {
        balance_at(self.balances, owner, id)
    }

    /// How much of `id` that `owner` holds `spender` may still move.
    pub open spec fn allowance(self, owner: AccountId, id: Id, spender: AccountId) -> Balance {
        if self.allowances.contains_key((owner, id, spender)) {
            self.allowances[(owner, id, spender)]
        } else {
            0
        }
    }

    /// Whether `owner` has approved `operator` for all it holds.
    pub open spec fn approved_for_all(self, owner: AccountId, operator: AccountId) -> bool {
        self.operators.contains_key((owner, operator)) && self.operators[(owner, operator)]
    }

    /// How much of `id` is in circulation.
    pub open spec fn supply_of(self, id: Id) -> Balance {
        if self.supply.contains_key(id) {
            self.supply[id]
        } else {
            0
        }
    }

    /// The supply of a category, or, for `None`, the number of categories in
    /// circulation.
    pub open spec fn total_supply(self, id: Option<Id>) -> nat {
        match id {
            Some(id) => self.supply_of(id) as nat,
            None => self.supply.dom().len(),
        }
    }

    /// What holds of every ledger: finitely many entries; of each category,
    /// the balances of all owners add up to its supply; a category in the
    /// table of supplies is in circulation; the zero account holds nothing;
    /// nothing is said by an account of itself as its operator.
    pub open spec fn valid(self) -> bool {
        &&& self.balances.dom().finite()
        &&& self.allowances.dom().finite()
        &&& self.operators.dom().finite()
        &&& self.supply.dom().finite()
        &&& forall|account: AccountId| !self.operators.contains_key((account, account))
        &&& forall|id: Id| #[trigger] held(self.balances, id) == self.supply_of(id)
        &&& forall|id: Id| #[trigger] self.supply.contains_key(id) ==> self.supply[id] > 0
        &&& forall|owner: AccountId, id: Id| #[trigger]
            self.balances.contains_key((owner, id)) ==> !is_zero_account(owner)
    }

    /// Whether `caller` may move `amount` of `id` out of what `from` holds:
    /// as the holder itself, as an operator of the holder, or within the
    /// allowance the holder has set for it.
    pub open spec fn may_move(self, caller: AccountId, from: AccountId, id: Id, amount: Balance)
        -> bool {
        caller == from || self.approved_for_all(from, caller) || self.allowance(from, id, caller)
            >= amount
    }

    /// Whether a movement by `caller` uses up the allowance: the caller is
    /// neither the holder nor one of its operators.
    pub open spec fn uses_allowance(self, caller: AccountId, from: AccountId) -> bool {
        caller != from && !self.approved_for_all(from, caller)
    }

    /// The ledger with `amount` as what `owner` holds of `id`.
    pub open spec fn with_balance(self, owner: AccountId, id: Id, amount: Balance) -> Holdings {
        Holdings { balances: self.balances.insert((owner, id), amount), ..self }
    }

    /// The ledger with `amount` of `id` in circulation: no entry for nothing.
    pub open spec fn with_supply(self, id: Id, amount: Balance) -> Holdings {
        if amount == 0 {
            Holdings { supply: self.supply.remove(id), ..self }
        } else {
            Holdings { supply: self.supply.insert(id, amount), ..self }
        }
    }

    /// The ledger with `amount` as what `spender` may move of what `owner`
    /// holds of `id`.
    pub open spec fn with_allowance(
        self,
        owner: AccountId,
        id: Id,
        spender: AccountId,
        amount: Balance,
    ) -> Holdings {
        Holdings { allowances: self.allowances.insert((owner, id, spender), amount), ..self }
    }

    /// The ledger after `owner` said `approved` of `operator`.
    pub open spec fn with_operator(self, owner: AccountId, operator: AccountId, approved: bool)
        -> Holdings {
        Holdings { operators: self.operators.insert((owner, operator), approved), ..self }
    }

    /// Whether the table of balances has room for what `owner` holds of `id`.
    pub open spec fn room_for_balance(self, owner: AccountId, id: Id) -> bool {
        self.balances.contains_key((owner, id)) || self.balances.dom().len() < u32::MAX
    }

    /// Whether the table of supplies has room for `id`.
    pub open spec fn room_for_supply(self, id: Id) -> bool {
        self.supply.contains_key(id) || self.supply.dom().len() < u32::MAX
    }

    /// Creates `amount` of `id` for `to`.
    ///
    /// Fails with `NotAllowed` for the zero account. An amount of zero
    /// changes nothing. Fails with `Overflow` if the balance or the supply
    /// would pass the largest amount, or a table has no room for a new entry.
    pub open spec fn mint_item(self, to: AccountId, id: Id, amount: Balance) -> Result<
        Holdings,
        PSP1155Error,
    > {
        if is_zero_account(to) {
            Err(PSP1155Error::NotAllowed)
        } else if amount == 0 {
            Ok(self)
        } else if self.balance_of(to, id) + amount > Balance::MAX || self.supply_of(id) + amount
            > Balance::MAX || !self.room_for_balance(to, id) || !self.room_for_supply(id) {
            Err(PSP1155Error::Overflow)
        } else {
            let balance = (self.balance_of(to, id) + amount) as Balance;
            let supply = (self.supply_of(id) + amount) as Balance;
            Ok(self.with_balance(to, id, balance).with_supply(id, supply))
        }
    }

    /// Destroys `amount` of what `from` holds of `id`.
    ///
    /// An amount of zero changes nothing. Fails with `InsufficientBalance` if
    /// `from` holds less.
    pub open spec fn burn_item(self, from: AccountId, id: Id, amount: Balance) -> Result<
        Holdings,
        PSP1155Error,
    > {
        if amount == 0 {
            Ok(self)
        } else if self.balance_of(from, id) < amount {
            Err(PSP1155Error::InsufficientBalance)
        } else {
            let balance = (self.balance_of(from, id) - amount) as Balance;
            let supply = (self.supply_of(id) - amount) as Balance;
            Ok(self.with_balance(from, id, balance).with_supply(id, supply))
        }
    }

    /// Moves `amount` of `id` from `from` to `to`, at the request of
    /// `caller`.
    ///
    /// Fails with `NotAllowed` if `to` is the zero account, with
    /// `NotApproved` if the caller may not move the amount, with
    /// `InsufficientBalance` if `from` holds less, and with `Overflow` if the
    /// table of balances has no room for a new entry of `to`. Where the
    /// caller moves within its allowance, the allowance shrinks by the
    /// amount. An amount of zero, and a movement from an account to itself,
    /// leave the balances as they are.
    pub open spec fn transfer_item(
        self,
        caller: AccountId,
        from: AccountId,
        to: AccountId,
        id: Id,
        amount: Balance,
    ) -> Result<Holdings, PSP1155Error> {
        if is_zero_account(to) {
            Err(PSP1155Error::NotAllowed)
        } else if !self.may_move(caller, from, id, amount) {
            Err(PSP1155Error::NotApproved)
        } else if self.balance_of(from, id) < amount {
            Err(PSP1155Error::InsufficientBalance)
        } else if amount == 0 {
            Ok(self)
        } else if from != to && !self.room_for_balance(to, id) {
            Err(PSP1155Error::Overflow)
        } else {
            let spent = if self.uses_allowance(caller, from) {
                self.with_allowance(
                    from,
                    id,
                    caller,
                    (self.allowance(from, id, caller) - amount) as Balance,
                )
            } else {
                self
            };
            if from == to {
                Ok(spent)
            } else {
                let lowered = (self.balance_of(from, id) - amount) as Balance;
                let raised = (self.balance_of(to, id) + amount) as Balance;
                Ok(spent.with_balance(from, id, lowered).with_balance(to, id, raised))
            }
        }
    }

    /// What `movement` does with one item.
    pub open spec fn apply(self, movement: Movement, id: Id, amount: Balance) -> Result<
        Holdings,
        PSP1155Error,
    > {
        match movement {
            Movement::Mint { to } => self.mint_item(to, id, amount),
            Movement::Burn { from } => self.burn_item(from, id, amount),
            Movement::Transfer { caller, from, to } => self.transfer_item(
                caller,
                from,
                to,
                id,
                amount,
            ),
        }
    }

    /// What `movement` does with a batch: the items are applied in order;
    /// the first that fails ends the batch with its error, and what the
    /// items before it did stays done.
    pub open spec fn run(self, movement: Movement, items: Seq<(Id, Balance)>) -> (
        Holdings,
        Result<(), PSP1155Error>,
    )
        decreases items.len(),
    {
        if items.len() == 0 {
            (self, Ok(()))
        } else {
            match self.apply(movement, items[0].0, items[0].1) {
                Err(e) => (self, Err(e)),
                Ok(next) => next.run(movement, items.drop_first()),
            }
        }
    }

    /// Whether `caller` can set an allowance for `spender`.
    pub open spec fn check_approve(self, caller: AccountId, spender: AccountId, id: Id) -> Result<
        (),
        PSP1155Error,
    > {
        if spender == caller || is_zero_account(spender) {
            Err(PSP1155Error::NotAllowed)
        } else if !self.allowances.contains_key((caller, id, spender))
            && self.allowances.dom().len() >= u32::MAX {
            Err(PSP1155Error::Overflow)
        } else {
            Ok(())
        }
    }

    /// Whether `caller` can say `approved` of `operator`.
    pub open spec fn check_approve_for_all(self, caller: AccountId, operator: AccountId)
        -> Result<(), PSP1155Error> {
        if operator == caller {
            Err(PSP1155Error::NotAllowed)
        } else if !self.operators.contains_key((caller, operator)) && self.operators.dom().len()
            >= u32::MAX {
            Err(PSP1155Error::Overflow)
        } else {
            Ok(())
        }
    }
}

/// What a batch with its extension points comes to: the ledger and the
/// result, given the movement, its items, what the extension says before the
/// batch is run (`vetoed`) and after it (`judged`), and the ledger before.
///
/// A movement that cannot be asked for fails and changes nothing; the
/// extension is not asked. A batch that the extension vetoes fails with the
/// extension's error and changes nothing. In every other case the batch is
/// run. Where it fails, its error is the result, what the items before the
/// failure did stays done, and the extension is not asked again. Where it
/// succeeds, the extension's judgement of it is the result: an error there
/// does not undo the batch.
pub open spec fn batch_outcome(
    before: Holdings,
    movement: Movement,
    items: Seq<(Id, Balance)>,
    vetoed: Result<(), PSP1155Error>,
    judged: Result<(), PSP1155Error>,
) -> (Holdings, Result<(), PSP1155Error>) {
    match movement.check() {
        Err(e) => (before, Err(e)),
        Ok(_) => match vetoed {
            Err(e) => (before, Err(e)),
            Ok(_) => match before.run(movement, items).1 {
                Err(e) => (before.run(movement, items).0, Err(e)),
                Ok(_) => (before.run(movement, items).0, judged),
            },
        },
    }
}

/// What a batch comes to whose request is checked once more before the
/// movement is: a request that this check refuses fails with its error and
/// changes nothing.
pub open spec fn checked_batch_outcome(
    checked: Result<(), PSP1155Error>,
    before: Holdings,
    movement: Movement,
    items: Seq<(Id, Balance)>,
    vetoed: Result<(), PSP1155Error>,
    judged: Result<(), PSP1155Error>,
) -> (Holdings, Result<(), PSP1155Error>) {
    match checked {
        Err(e) => (before, Err(e)),
        Ok(_) => batch_outcome(before, movement, items, vetoed, judged),
    }
}

} // verus!
