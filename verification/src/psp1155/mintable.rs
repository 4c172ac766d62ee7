//! Minting at the request of the embedding contract.

use crate::account::{AccountId, Balance, Id};
use crate::errors::PSP1155Error;
use crate::psp1155::data::PSP1155Data;
use crate::psp1155::extension::Transfer;
use crate::psp1155::ledger::PSP1155;
use crate::psp1155::model::{batch_outcome, Movement};
use vstd::prelude::*;

verus! {

/// A multi-category ledger that can create balances.
pub trait PSP1155Mintable: PSP1155 {
    /// Creates each amount of `ids_amounts` for `to`.
    fn mint<E: Transfer>(
        &mut self,
        ext: &E,
        to: AccountId,
        ids_amounts: Vec<(Id, Balance)>,
    ) -> (result: Result<(), PSP1155Error>)
        ensures
            final(self).ledger().valid(),
            (final(self).ledger(), result) == batch_outcome(
                old(self).ledger(),
                Movement::Mint { to },
                ids_amounts@,
                ext.before_verdict(None, Some(to), ids_amounts@),
                ext.after_verdict(None, Some(to), ids_amounts@),
            ),
    {
        self._mint_batch(ext, to, ids_amounts)
    }
}

impl PSP1155Mintable for PSP1155Data {

}

} // verus!
