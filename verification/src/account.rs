//! Identities and amounts.

use vstd::prelude::*;

verus! {

/// An account: an opaque 32-byte identity supplied by the host.
pub type AccountId = [u8; 32];

/// The identifier of a unique asset, or of a category of balances.
pub type Id = [u8; 32];

/// An amount of some category.
pub type Balance = u128;

/// The reserved account that stands for "nobody": every byte is zero.
pub open spec fn is_zero_account(account: AccountId) -> bool {
    forall|i: int| 0 <= i < 32 ==> account[i] == 0u8
}

/// The account that an optional reference names, if it names one.
pub open spec fn named(account: Option<&AccountId>) -> Option<AccountId> {
    match account {
        Some(account) => Some(*account),
        None => None,
    }
}

/// The reserved zero account.
pub fn zero_address() -> (zero: AccountId)
    ensures
        is_zero_account(zero),
{
    [0u8; 32]
}

/// Whether `account` is the reserved zero account.
pub fn is_zero(account: &AccountId) -> (zero: bool)
    ensures
        zero == is_zero_account(*account),
{
    let mut i: usize = 0;
    while i < 32
        invariant
            i <= 32,
            forall|j: int| 0 <= j < i ==> account[j] == 0u8,
        decreases 32 - i,
    {
        if account[i] != 0u8 {
            return false;
        }
        i += 1;
    }
    true
}

/// Whether two identities are the same, byte for byte.
pub fn same_account(a: &AccountId, b: &AccountId) -> (same: bool)
    ensures
        same == (*a == *b),
{
    let mut i: usize = 0;
    while i < 32
        invariant
            i <= 32,
            forall|j: int| 0 <= j < i ==> a[j] == b[j],
        decreases 32 - i,
    {
        if a[i] != b[i] {
            return false;
        }
        i += 1;
    }
    assert(*a =~= *b);
    true
}

} // verus!
