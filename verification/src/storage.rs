//! The ledger's tables. Each is a hash map of `ink_storage`, the map that a
//! contract keeps in its storage, held behind a struct of this crate; what a
//! table holds is named by a specification function, and the few operations
//! that the ledgers need are stated over that name.
//!
//! The contracts in this module are not proved: they say what the source of
//! `ink_storage::collections::HashMap` shows for a map that was made empty
//! and has only been changed through these operations.

use crate::account::{AccountId, Balance, Id};
use ink_storage::collections::HashMap as StorageHashMap;
use vstd::prelude::*;

verus! {

/// Which account a token id maps to: the owner table and the table of
/// single-asset approvals.
#[verifier::external_body]
pub struct AccountTable {
    inner: StorageHashMap<Id, AccountId>,
}

/// The entries of an [`AccountTable`].
pub uninterp spec fn account_entries(table: AccountTable) -> Map<Id, AccountId>;

impl AccountTable {
    /// `HashMap::new`: a map without entries.
    #[verifier::external_body]
    pub(crate) fn new() -> (table: AccountTable)
        ensures
            account_entries(table) =~= Map::empty(),
    {
        AccountTable { inner: StorageHashMap::new() }
    }

    /// `HashMap::len`: the number of entries.
    #[verifier::external_body]
    pub(crate) fn len(&self) -> (n: u32)
        ensures
            n as nat == account_entries(*self).dom().len(),
    {
        self.inner.len()
    }

    /// `HashMap::get`: the value under `id`, if there is one.
    #[verifier::external_body]
    pub(crate) fn get(&self, id: &Id) -> (found: Option<AccountId>)
        ensures
            found == account_entries(*self).get(*id),
    {
        self.inner.get(id).copied()
    }

    /// `HashMap::insert`: afterwards `id` maps to `account`, every other
    /// entry is as before. The map counts its entries in a `u32` and adds
    /// one for a new key, so a new key needs room.
    #[verifier::external_body]
    pub(crate) fn insert(&mut self, id: Id, account: AccountId)
        requires
            account_entries(*old(self)).contains_key(id) || account_entries(*old(self)).dom().len()
                < u32::MAX,
        ensures
            account_entries(*final(self)) == account_entries(*old(self)).insert(id, account),
    {
        self.inner.insert(id, account);
    }

    /// `HashMap::take`: afterwards `id` has no entry, every other entry is as
    /// before; returns what `id` mapped to.
    #[verifier::external_body]
    pub(crate) fn take(&mut self, id: &Id) -> (taken: Option<AccountId>)
        ensures
            taken == account_entries(*old(self)).get(*id),
            account_entries(*final(self)) == account_entries(*old(self)).remove(*id),
    {
        self.inner.take(id)
    }
}

/// How many unique assets an account owns.
#[verifier::external_body]
pub struct CountTable {
    inner: StorageHashMap<AccountId, u32>,
}

/// The entries of a [`CountTable`].
pub uninterp spec fn count_entries(table: CountTable) -> Map<AccountId, u32>;

impl CountTable {
    /// `HashMap::new`: a map without entries.
    #[verifier::external_body]
    pub(crate) fn new() -> (table: CountTable)
        ensures
            count_entries(table) =~= Map::empty(),
    {
        CountTable { inner: StorageHashMap::new() }
    }

    /// `HashMap::get`: the value under `account`, if there is one.
    #[verifier::external_body]
    pub(crate) fn get(&self, account: &AccountId) -> (found: Option<u32>)
        ensures
            found == count_entries(*self).get(*account),
    {
        self.inner.get(account).copied()
    }

    /// `HashMap::insert`: afterwards `account` maps to `count`, every other
    /// entry is as before. A new key needs room in the map's `u32` length.
    #[verifier::external_body]
    pub(crate) fn insert(&mut self, account: AccountId, count: u32)
        requires
            count_entries(*old(self)).contains_key(account) || count_entries(*old(self)).dom().len()
                < u32::MAX,
        ensures
            count_entries(*final(self)) == count_entries(*old(self)).insert(account, count),
    {
        self.inner.insert(account, count);
    }

    /// `HashMap::take`: afterwards `account` has no entry, every other entry
    /// is as before; returns what `account` mapped to.
    #[verifier::external_body]
    pub(crate) fn take(&mut self, account: &AccountId) -> (taken: Option<u32>)
        ensures
            taken == count_entries(*old(self)).get(*account),
            count_entries(*final(self)) == count_entries(*old(self)).remove(*account),
    {
        self.inner.take(account)
    }
}

/// Whether an owner has approved an operator for everything it owns, keyed by
/// the pair (owner, operator).
#[verifier::external_body]
pub struct OperatorTable {
    inner: StorageHashMap<(AccountId, AccountId), bool>,
}

/// The entries of an [`OperatorTable`].
pub uninterp spec fn operator_entries(table: OperatorTable) -> Map<(AccountId, AccountId), bool>;

impl OperatorTable {
    /// `HashMap::new`: a map without entries.
    #[verifier::external_body]
    pub(crate) fn new() -> (table: OperatorTable)
        ensures
            operator_entries(table) =~= Map::empty(),
    {
        OperatorTable { inner: StorageHashMap::new() }
    }

    /// `HashMap::len`: the number of entries.
    #[verifier::external_body]
    pub(crate) fn len(&self) -> (n: u32)
        ensures
            n as nat == operator_entries(*self).dom().len(),
    {
        self.inner.len()
    }

    /// `HashMap::get`: the value under (`owner`, `operator`), if there is one.
    #[verifier::external_body]
    pub(crate) fn get(&self, owner: &AccountId, operator: &AccountId) -> (found: Option<bool>)
        ensures
            found == operator_entries(*self).get((*owner, *operator)),
    {
        self.inner.get(&(*owner, *operator)).copied()
    }

    /// `HashMap::insert`: afterwards (`owner`, `operator`) maps to
    /// `approved`, every other entry is as before. A new key needs room in
    /// the map's `u32` length.
    #[verifier::external_body]
    pub(crate) fn insert(&mut self, owner: AccountId, operator: AccountId, approved: bool)
        requires
            operator_entries(*old(self)).contains_key((owner, operator)) || operator_entries(
                *old(self),
            ).dom().len() < u32::MAX,
        ensures
            operator_entries(*final(self)) == operator_entries(*old(self)).insert(
                (owner, operator),
                approved,
            ),
    {
        self.inner.insert((owner, operator), approved);
    }
}

/// How much of a category an account holds, keyed by the pair (owner,
/// category).
#[verifier::external_body]
pub struct BalanceTable {
    inner: StorageHashMap<(AccountId, Id), Balance>,
}

/// The entries of a [`BalanceTable`].
pub uninterp spec fn balance_entries(table: BalanceTable) -> Map<(AccountId, Id), Balance>;

impl BalanceTable {
    /// `HashMap::new`: a map without entries.
    #[verifier::external_body]
    pub(crate) fn new() -> (table: BalanceTable)
        ensures
            balance_entries(table) =~= Map::empty(),
    {
        BalanceTable { inner: StorageHashMap::new() }
    }

    /// `HashMap::len`: the number of entries.
    #[verifier::external_body]
    pub(crate) fn len(&self) -> (n: u32)
        ensures
            n as nat == balance_entries(*self).dom().len(),
    {
        self.inner.len()
    }

    /// `HashMap::get`: the value under (`owner`, `id`), if there is one.
    #[verifier::external_body]
    pub(crate) fn get(&self, owner: &AccountId, id: &Id) -> (found: Option<Balance>)
        ensures
            found == balance_entries(*self).get((*owner, *id)),
    {
        self.inner.get(&(*owner, *id)).copied()
    }

    /// `HashMap::insert`: afterwards (`owner`, `id`) maps to `amount`, every
    /// other entry is as before. A new key needs room in the map's `u32`
    /// length.
    #[verifier::external_body]
    pub(crate) fn insert(&mut self, owner: AccountId, id: Id, amount: Balance)
        requires
            balance_entries(*old(self)).contains_key((owner, id)) || balance_entries(
                *old(self),
            ).dom().len() < u32::MAX,
        ensures
            balance_entries(*final(self)) == balance_entries(*old(self)).insert(
                (owner, id),
                amount,
            ),
    {
        self.inner.insert((owner, id), amount);
    }
}

/// How much of a category a spender may still move for an owner, keyed by the
/// triple (owner, category, spender).
#[verifier::external_body]
pub struct AllowanceTable {
    inner: StorageHashMap<(AccountId, Id, AccountId), Balance>,
}

/// The entries of an [`AllowanceTable`].
pub uninterp spec fn allowance_entries(table: AllowanceTable) -> Map<
    (AccountId, Id, AccountId),
    Balance,
>;

impl AllowanceTable {
    /// `HashMap::new`: a map without entries.
    #[verifier::external_body]
    pub(crate) fn new() -> (table: AllowanceTable)
        ensures
            allowance_entries(table) =~= Map::empty(),
    {
        AllowanceTable { inner: StorageHashMap::new() }
    }

    /// `HashMap::len`: the number of entries.
    #[verifier::external_body]
    pub(crate) fn len(&self) -> (n: u32)
        ensures
            n as nat == allowance_entries(*self).dom().len(),
    {
        self.inner.len()
    }

    /// `HashMap::get`: the value under (`owner`, `id`, `spender`), if there
    /// is one.
    #[verifier::external_body]
    pub(crate) fn get(&self, owner: &AccountId, id: &Id, spender: &AccountId) -> (found: Option<
        Balance,
    >)
        ensures
            found == allowance_entries(*self).get((*owner, *id, *spender)),
    {
        self.inner.get(&(*owner, *id, *spender)).copied()
    }

    /// `HashMap::insert`: afterwards (`owner`, `id`, `spender`) maps to
    /// `amount`, every other entry is as before. A new key needs room in the
    /// map's `u32` length.
    #[verifier::external_body]
    pub(crate) fn insert(&mut self, owner: AccountId, id: Id, spender: AccountId, amount: Balance)
        requires
            allowance_entries(*old(self)).contains_key((owner, id, spender)) || allowance_entries(
                *old(self),
            ).dom().len() < u32::MAX,
        ensures
            allowance_entries(*final(self)) == allowance_entries(*old(self)).insert(
                (owner, id, spender),
                amount,
            ),
    {
        self.inner.insert((owner, id, spender), amount);
    }
}

/// How much of a category is in circulation.
#[verifier::external_body]
pub struct SupplyTable {
    inner: StorageHashMap<Id, Balance>,
}

/// The entries of a [`SupplyTable`].
pub uninterp spec fn supply_entries(table: SupplyTable) -> Map<Id, Balance>;

impl SupplyTable {
    /// `HashMap::new`: a map without entries.
    #[verifier::external_body]
    pub(crate) fn new() -> (table: SupplyTable)
        ensures
            supply_entries(table) =~= Map::empty(),
    {
        SupplyTable { inner: StorageHashMap::new() }
    }

    /// `HashMap::len`: the number of entries.
    #[verifier::external_body]
    pub(crate) fn len(&self) -> (n: u32)
        ensures
            n as nat == supply_entries(*self).dom().len(),
    {
        self.inner.len()
    }

    /// `HashMap::get`: the value under `id`, if there is one.
    #[verifier::external_body]
    pub(crate) fn get(&self, id: &Id) -> (found: Option<Balance>)
        ensures
            found == supply_entries(*self).get(*id),
    {
        self.inner.get(id).copied()
    }

    /// `HashMap::insert`: afterwards `id` maps to `amount`, every other entry
    /// is as before. A new key needs room in the map's `u32` length.
    #[verifier::external_body]
    pub(crate) fn insert(&mut self, id: Id, amount: Balance)
        requires
            supply_entries(*old(self)).contains_key(id) || supply_entries(*old(self)).dom().len()
                < u32::MAX,
        ensures
            supply_entries(*final(self)) == supply_entries(*old(self)).insert(id, amount),
    {
        self.inner.insert(id, amount);
    }

    /// `HashMap::take`: afterwards `id` has no entry, every other entry is as
    /// before; returns what `id` mapped to.
    #[verifier::external_body]
    pub(crate) fn take(&mut self, id: &Id) -> (taken: Option<Balance>)
        ensures
            taken == supply_entries(*old(self)).get(*id),
            supply_entries(*final(self)) == supply_entries(*old(self)).remove(*id),
    {
        self.inner.take(id)
    }
}

} // verus!
