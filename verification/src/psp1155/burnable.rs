//! Burning by the holders of balances and by their operators.

use crate::account::{AccountId, Balance, Id};
use crate::errors::PSP1155Error;
use crate::psp1155::data::PSP1155Data;
use crate::psp1155::extension::Transfer;
use crate::psp1155::ledger::PSP1155;
use crate::psp1155::model::{batch_outcome, checked_batch_outcome, Holdings, Movement};
use vstd::prelude::*;

verus! {

/// Whether `caller` may burn what `from` holds: only as an operator that
/// `from` has approved for all it holds.
pub open spec fn check_burn_from(ledger: Holdings, caller: AccountId, from: AccountId) -> Result<
    (),
    PSP1155Error,
> {
    if ledger.approved_for_all(from, caller) {
        Ok(())
    } else {
        Err(PSP1155Error::ApproveRequired)
    }
}

/// A multi-category ledger whose holders can destroy what they hold.
pub trait PSP1155Burnable: PSP1155 {
    /// `caller` destroys `amount` of what it holds of `id`.
    fn burn<E: Transfer>(
        &mut self,
        ext: &E,
        caller: AccountId,
        id: Id,
        amount: Balance,
    ) -> (result: Result<(), PSP1155Error>)
        ensures
            final(self).ledger().valid(),
            (final(self).ledger(), result) == batch_outcome(
                old(self).ledger(),
                Movement::Burn { from: caller },
                seq![(id, amount)],
                ext.before_verdict(Some(caller), None, seq![(id, amount)]),
                ext.after_verdict(Some(caller), None, seq![(id, amount)]),
            ),
    {
        self._burn(ext, caller, id, amount)
    }

    /// `caller` destroys `amount` of what `from` holds of `id`. Fails with
    /// `ApproveRequired`, and changes nothing, unless `from` has approved
    /// the caller for all it holds.
    fn burn_from<E: Transfer>(
        &mut self,
        ext: &E,
        caller: AccountId,
        from: AccountId,
        id: Id,
        amount: Balance,
    ) -> (result: Result<(), PSP1155Error>)
        ensures
            final(self).ledger().valid(),
            (final(self).ledger(), result) == checked_batch_outcome(
                check_burn_from(old(self).ledger(), caller, from),
                old(self).ledger(),
                Movement::Burn { from },
                seq![(id, amount)],
                ext.before_verdict(Some(from), None, seq![(id, amount)]),
                ext.after_verdict(Some(from), None, seq![(id, amount)]),
            ),
    {
        if !self.is_approved_for_all(from, caller) {
            return Err(PSP1155Error::ApproveRequired);
        }
        self._burn(ext, from, id, amount)
    }

    /// `caller` destroys each amount of `ids_amounts` from what it holds.
    fn burn_batch<E: Transfer>(
        &mut self,
        ext: &E,
        caller: AccountId,
        ids_amounts: Vec<(Id, Balance)>,
    ) -> (result: Result<(), PSP1155Error>)
        ensures
            final(self).ledger().valid(),
            (final(self).ledger(), result) == batch_outcome(
                old(self).ledger(),
                Movement::Burn { from: caller },
                ids_amounts@,
                ext.before_verdict(Some(caller), None, ids_amounts@),
                ext.after_verdict(Some(caller), None, ids_amounts@),
            ),
    {
        self._burn_batch(ext, caller, ids_amounts)
    }

    /// `caller` destroys each amount of `ids_amounts` from what `from`
    /// holds. Fails with `ApproveRequired`, and changes nothing, unless
    /// `from` has approved the caller for all it holds.
    fn burn_batch_from<E: Transfer>(
        &mut self,
        ext: &E,
        caller: AccountId,
        from: AccountId,
        ids_amounts: Vec<(Id, Balance)>,
    ) -> (result: Result<(), PSP1155Error>)
        ensures
            final(self).ledger().valid(),
            (final(self).ledger(), result) == checked_batch_outcome(
                check_burn_from(old(self).ledger(), caller, from),
                old(self).ledger(),
                Movement::Burn { from },
                ids_amounts@,
                ext.before_verdict(Some(from), None, ids_amounts@),
                ext.after_verdict(Some(from), None, ids_amounts@),
            ),
    {
        if !self.is_approved_for_all(from, caller) {
            return Err(PSP1155Error::ApproveRequired);
        }
        self._burn_batch(ext, from, ids_amounts)
    }
}

impl PSP1155Burnable for PSP1155Data {

}

} // verus!
