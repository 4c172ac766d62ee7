//! A token ledger core: a ledger of unique assets, a ledger of balances in
//! many categories, and the extension points that are called around every
//! change of either.
//!
//! Each ledger has a mathematical model ([`psp721::model::Assets`],
//! [`psp1155::model::Holdings`]); every operation says over the model what it
//! returns and how it changes the ledger, and is proved to do so. What a
//! ledger records is valid at all times: no operation asks its caller for
//! more than its arguments. The tables of a ledger are the storage hash maps
//! of `ink_storage`; what is taken for granted of them stands in [`storage`].
//!
//! The ledgers neither know who calls them nor undo what they have done. The
//! caller is an argument of every operation that needs one. An operation
//! that fails after it has changed the ledger, because an extension or a
//! recipient said so, or because a later item of a batch failed, leaves the
//! change in place: it is for the host that runs the operation as a whole to
//! revert it.

pub mod account;
pub mod errors;
pub mod psp1155;
pub mod psp721;
pub mod storage;

pub use account::{is_zero, same_account, zero_address, AccountId, Balance, Id};
pub use errors::{PSP1155Error, PSP721Error, PSP721ReceiverError};
pub use psp1155::burnable::PSP1155Burnable;
pub use psp1155::data::PSP1155Data;
pub use psp1155::ledger::PSP1155;
pub use psp1155::mintable::PSP1155Mintable;
pub use psp721::data::PSP721Data;
pub use psp721::ledger::PSP721;
pub use psp721::receiver::{IPSP721Receiver, PSP721Receiver};
