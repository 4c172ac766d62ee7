//! Sums of balances over the holders of a category.

use crate::account::{AccountId, Balance, Id};
use vstd::prelude::*;

verus! {

/// The sum of the balances under `keys`.
pub open spec fn balance_sum(
    keys: Set<(AccountId, Id)>,
    balances: Map<(AccountId, Id), Balance>,
) -> nat
    decreases keys.len(),
    when keys.finite()
{
    if keys.is_empty() {
        0
    } else {
        let key = keys.choose();
        balances[key] as nat + balance_sum(keys.remove(key), balances)
    }
}

/// The entries of a table of balances that are of the category `id`.
pub open spec fn holders(balances: Map<(AccountId, Id), Balance>, id: Id) -> Set<(AccountId, Id)> {
    balances.dom().filter(|key: (AccountId, Id)| key.1 == id)
}

/// How much of the category `id` all accounts hold together.
pub open spec fn held(balances: Map<(AccountId, Id), Balance>, id: Id) -> nat {
    balance_sum(holders(balances, id), balances)
}

/// What `owner` holds of `id`: an account without entry holds nothing.
pub open spec fn balance_at(balances: Map<(AccountId, Id), Balance>, owner: AccountId, id: Id)
    -> Balance {
    if balances.contains_key((owner, id)) {
        balances[(owner, id)]
    } else {
        0
    }
}

/// A sum can be taken apart at any of its keys.
pub proof fn lemma_sum_remove(
    keys: Set<(AccountId, Id)>,
    balances: Map<(AccountId, Id), Balance>,
    key: (AccountId, Id),
)
    requires
        keys.finite(),
        keys.contains(key),
    ensures
        balance_sum(keys, balances) == balances[key] as nat + balance_sum(
            keys.remove(key),
            balances,
        ),
    decreases keys.len(),
{
    let chosen = keys.choose();
    if chosen != key {
        lemma_sum_remove(keys.remove(chosen), balances, key);
        lemma_sum_remove(keys.remove(key), balances, chosen);
        assert(keys.remove(chosen).remove(key) =~= keys.remove(key).remove(chosen));
    }
}

/// A sum depends on the balances under its keys alone.
pub proof fn lemma_sum_agree(
    keys: Set<(AccountId, Id)>,
    first: Map<(AccountId, Id), Balance>,
    second: Map<(AccountId, Id), Balance>,
)
    requires
        keys.finite(),
        forall|key: (AccountId, Id)| keys.contains(key) ==> first[key] == second[key],
    ensures
        balance_sum(keys, first) == balance_sum(keys, second),
    decreases keys.len(),
{
    if !keys.is_empty() {
        lemma_sum_agree(keys.remove(keys.choose()), first, second);
    }
}

/// The holders of a category are finitely many.
pub proof fn lemma_holders_finite(balances: Map<(AccountId, Id), Balance>, id: Id)
    requires
        balances.dom().finite(),
    ensures
        holders(balances, id).finite(),
{
    let of_category = |key: (AccountId, Id)| key.1 == id;
    balances.dom().lemma_len_filter(of_category);
    assert(holders(balances, id) =~= balances.dom().filter(of_category));
}

/// Writing one balance changes what is held of its category by the
/// difference, and nothing of any other category.
pub proof fn lemma_held_insert(
    balances: Map<(AccountId, Id), Balance>,
    owner: AccountId,
    id: Id,
    amount: Balance,
)
    requires
        balances.dom().finite(),
    ensures
        held(balances.insert((owner, id), amount), id) + balance_at(balances, owner, id) == held(
            balances,
            id,
        ) + amount,
        forall|other: Id|
            other != id ==> #[trigger] held(balances.insert((owner, id), amount), other) == held(
                balances,
                other,
            ),
{
    let key = (owner, id);
    let written = balances.insert(key, amount);
    let before = holders(balances, id);
    let after = holders(written, id);
    lemma_holders_finite(balances, id);
    lemma_holders_finite(written, id);
    assert(after =~= before.insert(key));
    lemma_sum_remove(after, written, key);
    if before.contains(key) {
        assert(after =~= before);
        lemma_sum_remove(before, balances, key);
        lemma_sum_agree(before.remove(key), balances, written);
    } else {
        assert(after.remove(key) =~= before);
        lemma_sum_agree(before, balances, written);
    }
    assert forall|other: Id| other != id implies #[trigger] held(written, other) == held(
        balances,
        other,
    ) by {
        lemma_holders_finite(balances, other);
        assert(holders(written, other) =~= holders(balances, other));
        lemma_sum_agree(holders(balances, other), balances, written);
    }
}

/// No account holds more of a category than all accounts together.
pub proof fn lemma_balance_within_held(
    balances: Map<(AccountId, Id), Balance>,
    owner: AccountId,
    id: Id,
)
    requires
        balances.dom().finite(),
    ensures
        balance_at(balances, owner, id) <= held(balances, id),
{
    if balances.contains_key((owner, id)) {
        lemma_holders_finite(balances, id);
        lemma_sum_remove(holders(balances, id), balances, (owner, id));
    }
}

/// Two accounts hold no more of a category than all accounts together.
pub proof fn lemma_two_within_held(
    balances: Map<(AccountId, Id), Balance>,
    first: AccountId,
    second: AccountId,
    id: Id,
)
    requires
        balances.dom().finite(),
        first != second,
    ensures
        balance_at(balances, first, id) + balance_at(balances, second, id) <= held(balances, id),
{
    lemma_holders_finite(balances, id);
    let all = holders(balances, id);
    if balances.contains_key((first, id)) {
        lemma_sum_remove(all, balances, (first, id));
        if balances.contains_key((second, id)) {
            lemma_sum_remove(all.remove((first, id)), balances, (second, id));
        }
    } else {
        lemma_balance_within_held(balances, second, id);
    }
}

/// Without balances nothing is held.
pub proof fn lemma_held_empty(id: Id)
    ensures
        held(Map::<(AccountId, Id), Balance>::empty(), id) == 0,
{
    assert(holders(Map::<(AccountId, Id), Balance>::empty(), id) =~= Set::empty());
}

} // verus!
