//! How the table of counts follows the owners.

use crate::account::{AccountId, Id};
use crate::psp721::model::holdings;
use vstd::prelude::*;

verus! {

/// Whether a table of counts says of every account how many tokens it owns,
/// and has no entry for an account that owns none.
pub open spec fn counts_agree(owners: Map<Id, AccountId>, counts: Map<AccountId, u32>) -> bool {
    forall|account: AccountId|
        {
            &&& counts.contains_key(account) <==> (#[trigger] holdings(owners, account)).len() > 0
            &&& counts.contains_key(account) ==> counts[account] == holdings(owners, account).len()
        }
}

/// The tokens of one account are finitely many, and no more than all tokens.
pub proof fn lemma_holdings_bound(owners: Map<Id, AccountId>, account: AccountId)
    requires
        owners.dom().finite(),
    ensures
        holdings(owners, account).finite(),
        holdings(owners, account).len() <= owners.dom().len(),
{
    let owned_by = |id: Id| owners[id] == account;
    owners.dom().lemma_len_filter(owned_by);
    assert(holdings(owners, account) =~= owners.dom().filter(owned_by));
}

/// Giving a new token to `to` adds it to the tokens of `to` and to no other
/// account's.
pub proof fn lemma_holdings_insert(owners: Map<Id, AccountId>, id: Id, to: AccountId)
    requires
        owners.dom().finite(),
        !owners.contains_key(id),
    ensures
        holdings(owners.insert(id, to), to) == holdings(owners, to).insert(id),
        holdings(owners.insert(id, to), to).len() == holdings(owners, to).len() + 1,
        forall|other: AccountId|
            other != to ==> #[trigger] holdings(owners.insert(id, to), other) == holdings(
                owners,
                other,
            ),
{
    lemma_holdings_bound(owners, to);
    assert(holdings(owners.insert(id, to), to) =~= holdings(owners, to).insert(id));
    assert forall|other: AccountId| other != to implies #[trigger] holdings(
        owners.insert(id, to),
        other,
    ) == holdings(owners, other) by {
        assert(holdings(owners.insert(id, to), other) =~= holdings(owners, other));
    }
}

/// Taking a token out removes it from the tokens of its owner and from no
/// other account's.
pub proof fn lemma_holdings_remove(owners: Map<Id, AccountId>, id: Id)
    requires
        owners.dom().finite(),
        owners.contains_key(id),
    ensures
        holdings(owners.remove(id), owners[id]) == holdings(owners, owners[id]).remove(id),
        holdings(owners, owners[id]).contains(id),
        holdings(owners.remove(id), owners[id]).len() + 1 == holdings(owners, owners[id]).len(),
        forall|other: AccountId|
            other != owners[id] ==> #[trigger] holdings(owners.remove(id), other) == holdings(
                owners,
                other,
            ),
{
    let from = owners[id];
    lemma_holdings_bound(owners, from);
    assert(holdings(owners.remove(id), from) =~= holdings(owners, from).remove(id));
    assert forall|other: AccountId| other != from implies #[trigger] holdings(
        owners.remove(id),
        other,
    ) == holdings(owners, other) by {
        assert(holdings(owners.remove(id), other) =~= holdings(owners, other));
    }
}

/// A table of counts that agrees with the owners has an entry for just the
/// accounts that own something, so it has no more entries than there are
/// tokens.
pub proof fn lemma_counts_bound(owners: Map<Id, AccountId>, counts: Map<AccountId, u32>)
    requires
        owners.dom().finite(),
        counts_agree(owners, counts),
    ensures
        counts.dom() == owners.values(),
        counts.dom().finite(),
        counts.dom().len() <= owners.dom().len(),
{
    assert forall|account: AccountId| counts.dom().contains(account) == owners.values().contains(
        account,
    ) by {
        lemma_holdings_bound(owners, account);
        let held = holdings(owners, account);
        if counts.dom().contains(account) {
            assert(held.len() > 0);
            let id = held.choose();
            assert(held.contains(id));
            assert(owners.contains_key(id) && owners[id] == account);
        }
        if owners.values().contains(account) {
            let id = choose|id: Id| owners.contains_key(id) && owners[id] == account;
            assert(held.contains(id));
            assert(held.len() > 0) by {
                if held.len() == 0 {
                    assert(held =~= Set::empty());
                }
            }
        }
    }
    assert(counts.dom() =~= owners.values());
    owners.lemma_values_len();
}

/// The counts of `accounts` added up.
pub open spec fn counted_sum(accounts: Set<AccountId>, owners: Map<Id, AccountId>) -> nat
    decreases accounts.len(),
    when accounts.finite()
{
    if accounts.is_empty() {
        0
    } else {
        let account = accounts.choose();
        holdings(owners, account).len() + counted_sum(accounts.remove(account), owners)
    }
}

/// A sum of counts depends on the counts of its accounts alone.
pub proof fn lemma_counted_sum_agree(
    accounts: Set<AccountId>,
    first: Map<Id, AccountId>,
    second: Map<Id, AccountId>,
)
    requires
        accounts.finite(),
        forall|account: AccountId|
            accounts.contains(account) ==> holdings(first, account) == holdings(second, account),
    ensures
        counted_sum(accounts, first) == counted_sum(accounts, second),
    decreases accounts.len(),
{
    if !accounts.is_empty() {
        lemma_counted_sum_agree(accounts.remove(accounts.choose()), first, second);
    }
}

/// The counts of all accounts that own something add up to the number of
/// tokens.
pub proof fn lemma_counts_add_up(owners: Map<Id, AccountId>)
    requires
        owners.dom().finite(),
    ensures
        owners.values().finite(),
        counted_sum(owners.values(), owners) == owners.dom().len(),
    decreases owners.dom().len(),
{
    let accounts = owners.values();
    vstd::map_lib::lemma_values_finite(owners);
    if accounts.is_empty() {
        if owners.dom().len() > 0 {
            let id = owners.dom().choose();
            assert(owners.dom().contains(id));
            assert(owners.contains_value(owners[id]));
            assert(accounts.contains(owners[id]));
        }
    } else {
        let account = accounts.choose();
        let held = holdings(owners, account);
        lemma_holdings_bound(owners, account);
        let id = choose|id: Id| owners.contains_key(id) && owners[id] == account;
        assert(held.contains(id));
        let rest = owners.remove_keys(held);
        owners.lemma_remove_keys_len(held);
        assert(rest.dom() =~= owners.dom().difference(held));
        assert(rest.values() =~= accounts.remove(account)) by {
            assert forall|other: AccountId| rest.values().contains(other) == accounts.remove(
                account,
            ).contains(other) by {
                if rest.values().contains(other) {
                    let at = choose|at: Id| rest.contains_key(at) && rest[at] == other;
                    assert(owners.contains_key(at) && owners[at] == other);
                    assert(!held.contains(at));
                }
                if accounts.remove(account).contains(other) {
                    let at = choose|at: Id| owners.contains_key(at) && owners[at] == other;
                    assert(rest.contains_key(at) && rest[at] == other);
                }
            }
        }
        assert forall|other: AccountId| accounts.remove(account).contains(other) implies holdings(
            owners,
            other,
        ) == holdings(rest, other) by {
            assert(holdings(owners, other) =~= holdings(rest, other));
        }
        lemma_counted_sum_agree(accounts.remove(account), owners, rest);
        lemma_counts_add_up(rest);
    }
}

} // verus!
