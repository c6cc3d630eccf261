//! The keys of the ledger's four tables.

use vstd::prelude::*;
use crate::address::Address;
use crate::table::Key;
use crate::word::U256;

verus! {

/// Names one balance: that of `owner` in the token `token_id`.
#[derive(Clone, Copy, Debug, PartialEq, Eq, Structural)]
pub struct BalanceKey {
    pub owner: Address,
    pub token_id: U256,
}

/// Names one allowance: what `spender` may move of the tokens `token_id`
/// that `owner` holds.
#[derive(Clone, Copy, Debug, PartialEq, Eq, Structural)]
pub struct AllowanceKey {
    pub owner: Address,
    pub spender: Address,
    pub token_id: U256,
}

/// Names one operator flag: whether `operator` may move all that `owner`
/// holds.
#[derive(Clone, Copy, Debug, PartialEq, Eq, Structural)]
pub struct OperatorKey {
    pub owner: Address,
    pub operator: Address,
}

impl Key for U256 {
    fn same(&self, other: &U256) -> (r: bool) {
        *self == *other
    }
}

impl Key for BalanceKey {
    fn same(&self, other: &BalanceKey) -> (r: bool) {
        *self == *other
    }
}

impl Key for AllowanceKey {
    fn same(&self, other: &AllowanceKey) -> (r: bool) {
        *self == *other
    }
}

impl Key for OperatorKey {
    fn same(&self, other: &OperatorKey) -> (r: bool) {
        *self == *other
    }
}

} // verus!
