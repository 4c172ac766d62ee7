//! The unique-asset ledger: one owner per token id, an optional approved
//! spender per token, and operators approved by an owner for all it owns.

pub mod counts;
pub mod data;
pub mod extension;
pub mod laws;
pub mod ledger;
pub mod model;
pub mod receiver;
