//! The mathematical model of the unique-asset ledger.

use crate::account::{is_zero_account, AccountId, Id};
use crate::errors::PSP721Error;
use vstd::prelude::*;

verus! {

/// What the unique-asset ledger records.
pub struct Assets {
    /// The owner of each token that exists.
    pub owners: Map<Id, AccountId>,
    /// The spender approved for a single token.
    pub approvals: Map<Id, AccountId>,
    /// What each owner has said of each operator.
    pub operators: Map<(AccountId, AccountId), bool>,
}

/// The tokens that `account` owns.
pub open spec fn holdings(owners: Map<Id, AccountId>, account: AccountId) -> Set<Id> {
    owners.dom().filter(|id: Id| owners[id] == account)
}

impl Assets {
    /// The ledger without tokens and without approvals.
    pub open spec fn empty() -> Assets {
        Assets { owners: Map::empty(), approvals: Map::empty(), operators: Map::empty() }
    }

    /// The owner of `id`, if the token exists.
    pub open spec fn owner_of(self, id: Id) -> Option<AccountId> {
        self.owners.get(id)
    }

    /// The spender approved for `id`, if there is one.
    pub open spec fn approved(self, id: Id) -> Option<AccountId> {
        self.approvals.get(id)
    }

    /// How many tokens `account` owns.
    pub open spec fn balance(self, account: AccountId) -> nat {
        holdings(self.owners, account).len()
    }

    /// Whether `owner` has approved `operator` for all it owns.
    pub open spec fn approved_for_all(self, owner: AccountId, operator: AccountId) -> bool {
        self.operators.contains_key((owner, operator)) && self.operators[(owner, operator)]
    }

    /// Whether `account` may decide over `id`: it is the owner of the token
    /// or an operator of the owner.
    pub open spec fn owner_or_operator(self, account: AccountId, id: Id) -> bool {
        self.owners.contains_key(id) && (self.owners[id] == account || self.approved_for_all(
            self.owners[id],
            account,
        ))
    }

    /// Whether `account` may move `id`: the token exists, the account is not
    /// the zero account, and it is the owner, the approved spender of the
    /// token, or an operator of the owner.
    pub open spec fn approved_or_owner(self, account: Option<AccountId>, id: Id) -> bool {
        match account {
            None => false,
            Some(who) => !is_zero_account(who) && self.owners.contains_key(id) && (self.owners[id]
                == who || self.approvals.get(id) == Some(who) || self.approved_for_all(
                self.owners[id],
                who,
            )),
        }
    }

    /// What holds of every ledger: finitely many tokens, no more than the
    /// counters can hold; no token of the zero account; an approval only for
    /// a token that exists; nothing said by an account of itself as its
    /// operator.
    pub open spec fn valid(self) -> bool {
        &&& self.owners.dom().finite()
        &&& self.owners.dom().len() <= u32::MAX
        &&& self.approvals.dom().subset_of(self.owners.dom())
        &&& self.operators.dom().finite()
        &&& forall|account: AccountId| !self.operators.contains_key((account, account))
        &&& forall|id: Id| #[trigger]
            self.owners.contains_key(id) ==> !is_zero_account(self.owners[id])
    }

    /// The ledger after `id` was given to `to`.
    pub open spec fn with_owner(self, id: Id, to: AccountId) -> Assets {
        Assets { owners: self.owners.insert(id, to), ..self }
    }

    /// The ledger after `id` was taken out of it, with its approval.
    pub open spec fn without(self, id: Id) -> Assets {
        Assets {
            owners: self.owners.remove(id),
            approvals: self.approvals.remove(id),
            ..self
        }
    }

    /// The ledger after `id` moved to `to`: the approval of the token is
    /// gone.
    pub open spec fn transferred(self, id: Id, to: AccountId) -> Assets {
        Assets {
            owners: self.owners.insert(id, to),
            approvals: self.approvals.remove(id),
            ..self
        }
    }

    /// The ledger after `spender` was approved for `id`.
    pub open spec fn with_approval(self, id: Id, spender: AccountId) -> Assets {
        Assets { approvals: self.approvals.insert(id, spender), ..self }
    }

    /// The ledger after `owner` said `approved` of `operator`.
    pub open spec fn with_operator(self, owner: AccountId, operator: AccountId, approved: bool)
        -> Assets {
        Assets { operators: self.operators.insert((owner, operator), approved), ..self }
    }

    /// The ledger after each mint of `mints`, a recipient and a token, was
    /// asked for in order: a mint that the rules refuse changes nothing.
    pub open spec fn minted(self, mints: Seq<(AccountId, Id)>) -> Assets
        decreases mints.len(),
    {
        if mints.len() == 0 {
            self
        } else {
            let next = if self.check_add(mints[0].0, mints[0].1) is Ok {
                self.with_owner(mints[0].1, mints[0].0)
            } else {
                self
            };
            next.minted(mints.drop_first())
        }
    }

    /// Whether a new token can be given to `to`.
    pub open spec fn check_add(self, to: AccountId, id: Id) -> Result<(), PSP721Error> {
        if self.owners.contains_key(id) {
            Err(PSP721Error::TokenExists)
        } else if is_zero_account(to) {
            Err(PSP721Error::NotAllowed)
        } else if self.owners.dom().len() >= u32::MAX {
            Err(PSP721Error::Overflow)
        } else {
            Ok(())
        }
    }

    /// Whether `from` can give up `id`.
    pub open spec fn check_remove(self, from: AccountId, id: Id) -> Result<(), PSP721Error> {
        if !self.owners.contains_key(id) {
            Err(PSP721Error::TokenNotFound)
        } else if self.owners[id] != from {
            Err(PSP721Error::NotOwner)
        } else {
            Ok(())
        }
    }

    /// Whether `caller` can move `id` from `from` to `to`.
    pub open spec fn check_transfer(self, caller: AccountId, from: AccountId, to: AccountId, id: Id)
        -> Result<(), PSP721Error> {
        if !self.owners.contains_key(id) {
            Err(PSP721Error::TokenNotFound)
        } else if !self.approved_or_owner(Some(caller), id) {
            Err(PSP721Error::NotApproved)
        } else if self.owners[id] != from {
            Err(PSP721Error::NotOwner)
        } else if is_zero_account(to) {
            Err(PSP721Error::NotAllowed)
        } else {
            Ok(())
        }
    }

    /// Whether `caller` can approve `spender` for `id`.
    pub open spec fn check_approve(self, caller: AccountId, spender: AccountId, id: Id) -> Result<
        (),
        PSP721Error,
    > {
        if !self.owner_or_operator(caller, id) || is_zero_account(spender) || spender == caller {
            Err(PSP721Error::NotAllowed)
        } else {
            Ok(())
        }
    }

    /// Whether `caller` can say `approved` of `operator`.
    pub open spec fn check_approve_for_all(self, caller: AccountId, operator: AccountId)
        -> Result<(), PSP721Error> {
        if operator == caller {
            Err(PSP721Error::NotAllowed)
        } else if !self.operators.contains_key((caller, operator)) && self.operators.dom().len()
            >= u32::MAX {
            Err(PSP721Error::Overflow)
        } else {
            Ok(())
        }
    }
}

/// The recipient of the first mint of `id` in `mints` that names an account
/// other than the zero account, if there is such a mint.
pub open spec fn first_minted(mints: Seq<(AccountId, Id)>, id: Id) -> Option<AccountId>
    decreases mints.len(),
{
    if mints.len() == 0 {
        None
    } else if mints[0].1 == id && !is_zero_account(mints[0].0) {
        Some(mints[0].0)
    } else {
        first_minted(mints.drop_first(), id)
    }
}

/// How the counts of two ledgers differ when one token has left `from` and
/// come to `to`: the count of `to` is one more, that of `from` one less, and
/// every other count is the same. `None` stands for no account, as in a mint
/// or a burn.
pub open spec fn token_moved(
    before: Assets,
    after: Assets,
    from: Option<AccountId>,
    to: Option<AccountId>,
) -> bool {
    forall|account: AccountId|
        (#[trigger] holdings(after.owners, account)).len() == holdings(
            before.owners,
            account,
        ).len() + (if to == Some(account) {
            1int
        } else {
            0int
        }) - (if from == Some(account) {
            1int
        } else {
            0int
        })
}

/// What an operation with its extension points comes to: the ledger and the
/// result, given what the ledger's own rules say of the request (`checked`),
/// what the extension says before the change (`vetoed`) and after it
/// (`judged`), the ledger before (`before`) and the ledger that the change
/// gives (`changed`).
///
/// A request that the rules refuse fails with their error and changes
/// nothing; the extension is not asked. One that the extension vetoes fails
/// with the extension's error and changes nothing. In every other case the
/// change is made, and the extension's judgement of it is the result: an
/// error there does not undo the change.
pub open spec fn outcome<S, E>(
    checked: Result<(), E>,
    vetoed: Result<(), E>,
    judged: Result<(), E>,
    before: S,
    changed: S,
) -> (S, Result<(), E>) {
    match checked {
        Err(e) => (before, Err(e)),
        Ok(_) => match vetoed {
            Err(e) => (before, Err(e)),
            Ok(_) => (changed, judged),
        },
    }
}

} // verus!
