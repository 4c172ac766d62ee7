//! What holds of the unique-asset ledger whatever is asked of it.

use crate::account::{AccountId, Id};
use crate::errors::PSP721Error;
use crate::account::is_zero_account;
use crate::psp721::counts::{
    counted_sum, lemma_counts_add_up, lemma_holdings_insert, lemma_holdings_remove,
};
use crate::psp721::model::{first_minted, holdings, Assets};
use vstd::prelude::*;

verus! {

/// A token that exists is among the tokens of exactly one account: its
/// owner.
pub proof fn law_one_owner_per_token(ledger: Assets, id: Id)
    requires
        ledger.owners.contains_key(id),
    ensures
        Set::new(|account: AccountId| holdings(ledger.owners, account).contains(id)) == set![
            ledger.owners[id],
        ],
        Set::new(|account: AccountId| holdings(ledger.owners, account).contains(id)).len() == 1,
{
    let owning = Set::new(|account: AccountId| holdings(ledger.owners, account).contains(id));
    assert(owning =~= set![ledger.owners[id]]);
}

/// Minting a token that exists is refused with `TokenExists`, whoever it is
/// minted to.
pub proof fn law_double_mint_is_refused(ledger: Assets, to: AccountId, id: Id)
    requires
        ledger.owners.contains_key(id),
    ensures
        ledger.check_add(to, id) == Err::<(), PSP721Error>(PSP721Error::TokenExists),
{
}

/// After a transfer nobody is approved for the token, whoever was before,
/// and the recipient is its owner.
pub proof fn law_transfer_clears_approval(ledger: Assets, id: Id, to: AccountId)
    ensures
        ledger.transferred(id, to).approved(id) == None::<AccountId>,
        ledger.transferred(id, to).owner_of(id) == Some(to),
{
}

/// An account that is neither the owner of a token, nor its approved
/// spender, nor an operator of its owner cannot move it: the request is
/// refused with `NotApproved`.
pub proof fn law_unauthorized_transfer_is_refused(
    ledger: Assets,
    caller: AccountId,
    from: AccountId,
    to: AccountId,
    id: Id,
)
    requires
        ledger.owners.contains_key(id),
        ledger.owners[id] != caller,
        ledger.approved(id) != Some(caller),
        !ledger.approved_for_all(ledger.owners[id], caller),
    ensures
        ledger.check_transfer(caller, from, to, id) == Err::<(), PSP721Error>(
            PSP721Error::NotApproved,
        ),
{
}

/// A token can only be moved out of the hands of its owner: for any other
/// `from`, a caller that may move the token is refused with `NotOwner`.
pub proof fn law_transfer_from_another_is_refused(
    ledger: Assets,
    caller: AccountId,
    from: AccountId,
    to: AccountId,
    id: Id,
)
    requires
        ledger.approved_or_owner(Some(caller), id),
        ledger.owners[id] != from,
    ensures
        ledger.check_transfer(caller, from, to, id) == Err::<(), PSP721Error>(
            PSP721Error::NotOwner,
        ),
{
}

/// Nobody can approve itself: neither for a token nor as an operator.
pub proof fn law_self_approval_is_refused(ledger: Assets, caller: AccountId, id: Id)
    ensures
        ledger.check_approve(caller, caller, id) == Err::<(), PSP721Error>(
            PSP721Error::NotAllowed,
        ),
        ledger.check_approve_for_all(caller, caller) == Err::<(), PSP721Error>(
            PSP721Error::NotAllowed,
        ),
{
}

/// What the ledger's rules let through leaves a valid ledger valid: a mint,
/// a burn, a transfer and an approval.
pub proof fn law_changes_keep_valid(
    ledger: Assets,
    caller: AccountId,
    from: AccountId,
    to: AccountId,
    id: Id,
)
    requires
        ledger.valid(),
    ensures
        ledger.check_add(to, id) is Ok ==> ledger.with_owner(id, to).valid(),
        ledger.check_remove(from, id) is Ok ==> ledger.without(id).valid(),
        ledger.check_transfer(caller, from, to, id) is Ok ==> ledger.transferred(id, to).valid(),
        ledger.check_approve(caller, to, id) is Ok ==> ledger.with_approval(id, to).valid(),
{
    if ledger.check_transfer(caller, from, to, id) is Ok {
        assert(ledger.owners.insert(id, to).dom() =~= ledger.owners.dom());
    }
}

/// A transfer between two different accounts takes one token from the count
/// of the one, adds one to the count of the other, and leaves every other
/// count as it was.
pub proof fn law_transfer_moves_one_token(
    ledger: Assets,
    caller: AccountId,
    from: AccountId,
    to: AccountId,
    id: Id,
)
    requires
        ledger.valid(),
        ledger.check_transfer(caller, from, to, id) is Ok,
        from != to,
    ensures
        ledger.transferred(id, to).balance(from) + 1 == ledger.balance(from),
        ledger.transferred(id, to).balance(to) == ledger.balance(to) + 1,
        forall|other: AccountId|
            other != from && other != to ==> #[trigger] ledger.transferred(id, to).balance(other)
                == ledger.balance(other),
{
    let removed = ledger.owners.remove(id);
    lemma_holdings_remove(ledger.owners, id);
    lemma_holdings_insert(removed, id, to);
    assert(removed.insert(id, to) =~= ledger.owners.insert(id, to));
    let after = ledger.transferred(id, to);
    assert forall|other: AccountId| other != from && other != to implies #[trigger] after.balance(
        other,
    ) == ledger.balance(other) by {
        assert(holdings(removed, other) == holdings(ledger.owners, other));
        assert(holdings(removed.insert(id, to), other) == holdings(removed, other));
    }
}

/// A mint adds one token to the count of the recipient; a burn takes one
/// from the count of the owner.
pub proof fn law_mint_and_burn_count_one_token(ledger: Assets, account: AccountId, id: Id)
    requires
        ledger.valid(),
    ensures
        ledger.check_add(account, id) is Ok ==> ledger.with_owner(id, account).balance(account)
            == ledger.balance(account) + 1,
        ledger.check_remove(account, id) is Ok ==> ledger.without(id).balance(account) + 1
            == ledger.balance(account),
{
    if ledger.check_add(account, id) is Ok {
        lemma_holdings_insert(ledger.owners, id, account);
    }
    if ledger.check_remove(account, id) is Ok {
        lemma_holdings_remove(ledger.owners, id);
    }
}

/// Saying the same of an operator twice is saying it once.
pub proof fn law_operator_approval_is_idempotent(
    ledger: Assets,
    owner: AccountId,
    operator: AccountId,
    approved: bool,
)
    ensures
        ledger.with_operator(owner, operator, approved).with_operator(owner, operator, approved)
            == ledger.with_operator(owner, operator, approved),
        ledger.with_operator(owner, operator, approved).approved_for_all(owner, operator)
            == approved,
{
    let once = ledger.with_operator(owner, operator, approved);
    assert(once.operators.insert((owner, operator), approved) =~= once.operators);
}

/// The ledger without tokens is valid.
pub proof fn law_empty_is_valid()
    ensures
        Assets::empty().valid(),
{
}

/// Whoever may move a token moves it: the owner, the spender approved for
/// the token and an operator of the owner, none of them the zero account,
/// succeed in moving the token out of the hands of its owner to any account
/// but the zero account; afterwards the recipient owns the token and nobody
/// is approved for it, whoever was before.
pub proof fn law_authorized_transfer_clears_approval(
    ledger: Assets,
    caller: AccountId,
    from: AccountId,
    to: AccountId,
    id: Id,
)
    requires
        ledger.owner_of(id) == Some(from),
        !is_zero_account(to),
        !is_zero_account(caller),
        caller == from || ledger.approved(id) == Some(caller) || ledger.approved_for_all(
            from,
            caller,
        ),
    ensures
        ledger.check_transfer(caller, from, to, id) is Ok,
        ledger.transferred(id, to).approved(id) == None::<AccountId>,
        ledger.transferred(id, to).owner_of(id) == Some(to),
{
}

/// In a valid ledger nobody is its own operator.
pub proof fn law_nobody_is_its_own_operator(ledger: Assets, account: AccountId)
    requires
        ledger.valid(),
    ensures
        !ledger.approved_for_all(account, account),
{
}

/// What an account can say of an operator leaves a valid ledger valid: so
/// nobody is its own operator afterwards either.
pub proof fn law_operator_approval_keeps_valid(
    ledger: Assets,
    caller: AccountId,
    operator: AccountId,
    approved: bool,
)
    requires
        ledger.valid(),
        ledger.check_approve_for_all(caller, operator) is Ok,
    ensures
        ledger.with_operator(caller, operator, approved).valid(),
        ledger.with_operator(caller, operator, approved).approved_for_all(caller, operator)
            == approved,
{
}

/// Any sequence of mints, refused or not, leaves a valid ledger valid.
pub proof fn law_mints_keep_valid(ledger: Assets, mints: Seq<(AccountId, Id)>)
    requires
        ledger.valid(),
    ensures
        ledger.minted(mints).valid(),
    decreases mints.len(),
{
    if mints.len() > 0 {
        let next = if ledger.check_add(mints[0].0, mints[0].1) is Ok {
            ledger.with_owner(mints[0].1, mints[0].0)
        } else {
            ledger
        };
        law_mints_keep_valid(next, mints.drop_first());
    }
}

/// After a sequence of mints for which the ledger has room, a token that
/// existed before has the owner it had, and any other token is owned by the
/// recipient of the first mint of it that names an account other than the
/// zero account; a token without such a mint does not exist.
pub proof fn law_first_mint_owns(ledger: Assets, mints: Seq<(AccountId, Id)>, id: Id)
    requires
        ledger.valid(),
        ledger.owners.dom().len() + mints.len() <= u32::MAX,
    ensures
        ledger.minted(mints).owner_of(id) == (if ledger.owners.contains_key(id) {
            ledger.owner_of(id)
        } else {
            first_minted(mints, id)
        }),
    decreases mints.len(),
{
    if mints.len() > 0 {
        let next = if ledger.check_add(mints[0].0, mints[0].1) is Ok {
            ledger.with_owner(mints[0].1, mints[0].0)
        } else {
            ledger
        };
        law_first_mint_owns(next, mints.drop_first(), id);
    }
}

/// After any sequence of mints into the empty ledger, no longer than the
/// ledger can count: each token is owned by the recipient of its first mint
/// to an account other than the zero account; the count of an account is
/// the number of tokens it owns; and the counts of all owners add up to the
/// number of tokens.
pub proof fn law_mint_sequences(mints: Seq<(AccountId, Id)>)
    requires
        mints.len() <= u32::MAX,
    ensures
        Assets::empty().minted(mints).valid(),
        forall|id: Id| #[trigger]
            Assets::empty().minted(mints).owner_of(id) == first_minted(mints, id),
        forall|account: AccountId| #[trigger]
            Assets::empty().minted(mints).balance(account) == Set::new(
                |id: Id| Assets::empty().minted(mints).owner_of(id) == Some(account),
            ).len(),
        counted_sum(
            Assets::empty().minted(mints).owners.values(),
            Assets::empty().minted(mints).owners,
        ) == Assets::empty().minted(mints).owners.dom().len(),
{
    let after = Assets::empty().minted(mints);
    law_mints_keep_valid(Assets::empty(), mints);
    assert forall|id: Id| #[trigger] after.owner_of(id) == first_minted(mints, id) by {
        law_first_mint_owns(Assets::empty(), mints, id);
    }
    assert forall|account: AccountId| #[trigger]
        after.balance(account) == Set::new(|id: Id| after.owner_of(id) == Some(account)).len() by {
        assert(holdings(after.owners, account) =~= Set::new(
            |id: Id| after.owner_of(id) == Some(account),
        ));
    }
    lemma_counts_add_up(after.owners);
}

/// In every valid ledger the counts of all owners add up to the number of
/// tokens.
pub proof fn law_counts_add_up_to_tokens(ledger: Assets)
    requires
        ledger.valid(),
    ensures
        counted_sum(ledger.owners.values(), ledger.owners) == ledger.owners.dom().len(),
{
    lemma_counts_add_up(ledger.owners);
}

} // verus!
