//! What holds of the multi-category ledger whatever is asked of it.

use crate::account::{is_zero_account, AccountId, Balance, Id};
use crate::errors::PSP1155Error;
use crate::psp1155::model::{Holdings, Movement};
use crate::psp1155::sums::{
    held, lemma_balance_within_held, lemma_held_empty, lemma_held_insert, lemma_two_within_held,
};
use vstd::prelude::*;

verus! {

/// An item that a movement accepts leaves a valid ledger valid.
pub proof fn lemma_apply_keeps_valid(
    ledger: Holdings,
    movement: Movement,
    id: Id,
    amount: Balance,
)
    requires
        ledger.valid(),
        ledger.apply(movement, id, amount) is Ok,
    ensures
        ledger.apply(movement, id, amount)->Ok_0.valid(),
{
    let next = ledger.apply(movement, id, amount)->Ok_0;
    if amount != 0 {
        match movement {
            Movement::Mint { to } => {
                lemma_held_insert(
                    ledger.balances,
                    to,
                    id,
                    (ledger.balance_of(to, id) + amount) as Balance,
                );
                assert(next.valid());
            },
            Movement::Burn { from } => {
                lemma_balance_within_held(ledger.balances, from, id);
                lemma_held_insert(
                    ledger.balances,
                    from,
                    id,
                    (ledger.balance_of(from, id) - amount) as Balance,
                );
                assert(next.valid());
            },
            Movement::Transfer { caller, from, to } => {
                if from != to {
                    let lowered = (ledger.balance_of(from, id) - amount) as Balance;
                    let raised = (ledger.balance_of(to, id) + amount) as Balance;
                    lemma_two_within_held(ledger.balances, from, to, id);
                    lemma_held_insert(ledger.balances, from, id, lowered);
                    lemma_held_insert(ledger.balances.insert((from, id), lowered), to, id, raised);
                }
                assert(next.valid());
            },
        }
    }
}

/// A batch leaves a valid ledger valid, wherever it ends.
pub proof fn lemma_run_keeps_valid(ledger: Holdings, movement: Movement, items: Seq<(Id, Balance)>)
    requires
        ledger.valid(),
    ensures
        ledger.run(movement, items).0.valid(),
    decreases items.len(),
{
    if items.len() > 0 {
        match ledger.apply(movement, items[0].0, items[0].1) {
            Err(_) => {},
            Ok(next) => {
                lemma_apply_keeps_valid(ledger, movement, items[0].0, items[0].1);
                lemma_run_keeps_valid(next, movement, items.drop_first());
            },
        }
    }
}

/// After any batch of mints, burns or transfers on a valid ledger, and
/// wherever the batch ended, the balances that all owners hold of a category
/// add up to the supply of the category.
pub proof fn law_balances_add_up_to_supply(
    ledger: Holdings,
    movement: Movement,
    items: Seq<(Id, Balance)>,
    id: Id,
)
    requires
        ledger.valid(),
    ensures
        held(ledger.run(movement, items).0.balances, id) == ledger.run(
            movement,
            items,
        ).0.total_supply(Some(id)),
{
    lemma_run_keeps_valid(ledger, movement, items);
}

/// A transfer that succeeds between two different accounts takes the amount
/// from what the one holds, adds it to what the other holds, and leaves the
/// supply of every category as it was.
pub proof fn law_transfer_conserves(
    ledger: Holdings,
    caller: AccountId,
    from: AccountId,
    to: AccountId,
    id: Id,
    amount: Balance,
)
    requires
        ledger.valid(),
        from != to,
        ledger.transfer_item(caller, from, to, id, amount) is Ok,
    ensures
        ({
            let after = ledger.transfer_item(caller, from, to, id, amount)->Ok_0;
            &&& after.balance_of(from, id) == ledger.balance_of(from, id) - amount
            &&& after.balance_of(to, id) == ledger.balance_of(to, id) + amount
            &&& after.supply == ledger.supply
            &&& forall|owner: AccountId, other: Id|
                (owner != from && owner != to) || other != id ==> #[trigger] after.balance_of(
                    owner,
                    other,
                ) == ledger.balance_of(owner, other)
        }),
{
    lemma_two_within_held(ledger.balances, from, to, id);
}

/// A caller that is neither the holder, nor an operator of the holder, nor
/// within its allowance is refused with `NotApproved`.
pub proof fn law_unauthorized_transfer_is_refused(
    ledger: Holdings,
    caller: AccountId,
    from: AccountId,
    to: AccountId,
    id: Id,
    amount: Balance,
)
    requires
        !is_zero_account(to),
        caller != from,
        !ledger.approved_for_all(from, caller),
        ledger.allowance(from, id, caller) < amount,
    ensures
        ledger.transfer_item(caller, from, to, id, amount) == Err::<Holdings, PSP1155Error>(
            PSP1155Error::NotApproved,
        ),
{
}

/// A transfer of more than the holder has is refused with
/// `InsufficientBalance`, by whoever may move the holder's balance.
pub proof fn law_overdrawn_transfer_is_refused(
    ledger: Holdings,
    caller: AccountId,
    from: AccountId,
    to: AccountId,
    id: Id,
    amount: Balance,
)
    requires
        !is_zero_account(to),
        ledger.may_move(caller, from, id, amount),
        ledger.balance_of(from, id) < amount,
    ensures
        ledger.transfer_item(caller, from, to, id, amount) == Err::<Holdings, PSP1155Error>(
            PSP1155Error::InsufficientBalance,
        ),
{
}

/// A batch whose item fails ends with the error of that item, and leaves the
/// ledger as the items before it have made it.
pub proof fn law_batch_stops_at_first_failure(
    ledger: Holdings,
    movement: Movement,
    done: Seq<(Id, Balance)>,
    failing: (Id, Balance),
    rest: Seq<(Id, Balance)>,
)
    requires
        ledger.run(movement, done).1 is Ok,
        ledger.run(movement, done).0.apply(movement, failing.0, failing.1) is Err,
    ensures
        ledger.run(movement, done + seq![failing] + rest) == (
            ledger.run(movement, done).0,
            Err::<(), PSP1155Error>(
                ledger.run(movement, done).0.apply(movement, failing.0, failing.1)->Err_0,
            ),
        ),
    decreases done.len(),
{
    let all = done + seq![failing] + rest;
    if done.len() == 0 {
        assert(all[0] == failing);
    } else {
        assert(all[0] == done[0]);
        assert(all.drop_first() =~= done.drop_first() + seq![failing] + rest);
        match ledger.apply(movement, done[0].0, done[0].1) {
            Err(_) => {},
            Ok(next) => {
                law_batch_stops_at_first_failure(next, movement, done.drop_first(), failing, rest);
            },
        }
    }
}

/// Nobody can approve itself: neither for an allowance nor as an operator.
pub proof fn law_self_approval_is_refused(ledger: Holdings, caller: AccountId, id: Id)
    ensures
        ledger.check_approve(caller, caller, id) == Err::<(), PSP1155Error>(
            PSP1155Error::NotAllowed,
        ),
        ledger.check_approve_for_all(caller, caller) == Err::<(), PSP1155Error>(
            PSP1155Error::NotAllowed,
        ),
{
}

/// A mint that would take a balance or the supply of a category past the
/// largest amount is refused with `Overflow`.
pub proof fn law_mint_guards_overflow(ledger: Holdings, to: AccountId, id: Id, amount: Balance)
    requires
        !is_zero_account(to),
        ledger.balance_of(to, id) + amount > Balance::MAX || ledger.supply_of(id) + amount
            > Balance::MAX,
    ensures
        ledger.mint_item(to, id, amount) == Err::<Holdings, PSP1155Error>(PSP1155Error::Overflow),
{
}

/// The ledger without balances is valid: every sequence of batches starts
/// from a valid ledger.
pub proof fn law_empty_is_valid()
    ensures
        Holdings::empty().valid(),
{
    assert forall|id: Id| #[trigger] held(Holdings::empty().balances, id) == 0 by {
        lemma_held_empty(id);
    }
}

/// An allowance is set, not added to: the last one set is the one that
/// holds.
pub proof fn law_allowance_is_set(
    ledger: Holdings,
    owner: AccountId,
    id: Id,
    spender: AccountId,
    first: Balance,
    second: Balance,
)
    ensures
        ledger.with_allowance(owner, id, spender, first).with_allowance(
            owner,
            id,
            spender,
            second,
        ).allowance(owner, id, spender) == second,
{
}

/// Saying the same of an operator twice is saying it once.
pub proof fn law_operator_approval_is_idempotent(
    ledger: Holdings,
    owner: AccountId,
    operator: AccountId,
    approved: bool,
)
    ensures
        ledger.with_operator(owner, operator, approved).with_operator(owner, operator, approved)
            == ledger.with_operator(owner, operator, approved),
        ledger.with_operator(owner, operator, approved).approved_for_all(owner, operator)
            == approved,
{
    let once = ledger.with_operator(owner, operator, approved);
    assert(once.operators.insert((owner, operator), approved) =~= once.operators);
}

/// A movement within an allowance uses it up by the amount moved; the
/// holder and its operators use up nothing.
pub proof fn law_allowance_is_used_up(
    ledger: Holdings,
    caller: AccountId,
    from: AccountId,
    to: AccountId,
    id: Id,
    amount: Balance,
)
    requires
        ledger.transfer_item(caller, from, to, id, amount) is Ok,
    ensures
        ({
            let after = ledger.transfer_item(caller, from, to, id, amount)->Ok_0;
            if ledger.uses_allowance(caller, from) {
                after.allowance(from, id, caller) == ledger.allowance(from, id, caller) - amount
            } else {
                after.allowances == ledger.allowances
            }
        }),
{
}

/// A batch of one item does what the item does: it fails with the item's
/// error and changes nothing, or it succeeds and leaves the ledger as the
/// item leaves it.
pub proof fn law_batch_of_one_is_its_item(
    ledger: Holdings,
    movement: Movement,
    id: Id,
    amount: Balance,
)
    ensures
        ledger.run(movement, seq![(id, amount)]) == (match ledger.apply(movement, id, amount) {
            Err(e) => (ledger, Err::<(), PSP1155Error>(e)),
            Ok(next) => (next, Ok::<(), PSP1155Error>(())),
        }),
{
    reveal_with_fuel(Holdings::run, 2);
    let items = seq![(id, amount)];
    assert(items[0] == (id, amount));
    assert(items.drop_first().len() == 0);
}

/// A batch without items succeeds and changes nothing.
pub proof fn law_empty_batch_changes_nothing(ledger: Holdings, movement: Movement)
    ensures
        ledger.run(movement, Seq::<(Id, Balance)>::empty()) == (ledger, Ok::<(), PSP1155Error>(())),
{
}

/// In a valid ledger nobody is its own operator.
pub proof fn law_nobody_is_its_own_operator(ledger: Holdings, account: AccountId)
    requires
        ledger.valid(),
    ensures
        !ledger.approved_for_all(account, account),
{
}

/// A burn of two items of different categories, of which the holder has
/// enough for the first and too little for the second, fails as a whole with
/// `InsufficientBalance`: the batch does not report success for the first
/// item. What the first item burned stays burned.
pub proof fn law_overdrawn_burn_fails_as_a_whole(
    ledger: Holdings,
    from: AccountId,
    first: (Id, Balance),
    second: (Id, Balance),
)
    requires
        first.0 != second.0,
        ledger.balance_of(from, first.0) >= first.1,
        ledger.balance_of(from, second.0) < second.1,
    ensures
        ledger.burn_item(from, first.0, first.1) is Ok,
        ledger.run(Movement::Burn { from }, seq![first, second]) == (
            ledger.burn_item(from, first.0, first.1)->Ok_0,
            Err::<(), PSP1155Error>(PSP1155Error::InsufficientBalance),
        ),
{
    let movement = Movement::Burn { from };
    let next = ledger.burn_item(from, first.0, first.1)->Ok_0;
    assert(next.balance_of(from, second.0) == ledger.balance_of(from, second.0));
    law_batch_of_one_is_its_item(ledger, movement, first.0, first.1);
    law_batch_stops_at_first_failure(ledger, movement, seq![first], second, Seq::empty());
    assert(seq![first] + seq![second] + Seq::<(Id, Balance)>::empty() =~= seq![first, second]);
}

/// A transfer of two items of different categories, of which the holder has
/// enough for the first and too little for the second, fails as a whole with
/// `InsufficientBalance`, for a caller that may move both and a recipient
/// that can take the first. What the first item moved stays moved.
pub proof fn law_overdrawn_transfer_fails_as_a_whole(
    ledger: Holdings,
    caller: AccountId,
    from: AccountId,
    to: AccountId,
    first: (Id, Balance),
    second: (Id, Balance),
)
    requires
        first.0 != second.0,
        !is_zero_account(to),
        caller == from || ledger.approved_for_all(from, caller) || (ledger.allowance(
            from,
            first.0,
            caller,
        ) >= first.1 && ledger.allowance(from, second.0, caller) >= second.1),
        ledger.balance_of(from, first.0) >= first.1,
        ledger.balance_of(from, second.0) < second.1,
        from == to || ledger.room_for_balance(to, first.0),
    ensures
        ledger.transfer_item(caller, from, to, first.0, first.1) is Ok,
        ledger.run(Movement::Transfer { caller, from, to }, seq![first, second]) == (
            ledger.transfer_item(caller, from, to, first.0, first.1)->Ok_0,
            Err::<(), PSP1155Error>(PSP1155Error::InsufficientBalance),
        ),
{
    let movement = Movement::Transfer { caller, from, to };
    let next = ledger.transfer_item(caller, from, to, first.0, first.1)->Ok_0;
    assert(next.balance_of(from, second.0) == ledger.balance_of(from, second.0));
    assert(next.allowance(from, second.0, caller) == ledger.allowance(from, second.0, caller));
    assert(next.approved_for_all(from, caller) == ledger.approved_for_all(from, caller));
    law_batch_of_one_is_its_item(ledger, movement, first.0, first.1);
    law_batch_stops_at_first_failure(ledger, movement, seq![first], second, Seq::empty());
    assert(seq![first] + seq![second] + Seq::<(Id, Balance)>::empty() =~= seq![first, second]);
}

} // verus!
