//! The multi-category ledger: a balance per owner and category, an allowance
//! per owner, category and spender, operators approved by an owner for all it
//! holds, and the supply of each category.

pub mod burnable;
pub mod data;
pub mod extension;
pub mod laws;
pub mod ledger;
pub mod mintable;
pub mod model;
pub mod sums;
