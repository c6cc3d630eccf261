//! Records that the ledger hands out for each change, and the reasons for
//! which it refuses one.

use vstd::prelude::*;
use crate::address::Address;
use crate::word::U256;

verus! {

/// Tokens of one identifier moved: between two owners, out of the zero
/// address when minted, or into it when burnt.
#[derive(Clone, Copy, Debug, PartialEq, Eq, Structural)]
pub struct TransferSingle {
    pub operator: Address,
    pub from: Address,
    pub to: Address,
    pub token_id: U256,
    pub amount: U256,
}

/// An owner set the allowance of a spender for one token identifier.
#[derive(Clone, Copy, Debug, PartialEq, Eq, Structural)]
pub struct ApprovalSingle {
    pub owner: Address,
    pub spender: Address,
    pub token_id: U256,
    pub amount: U256,
}

/// Why the ledger refused an operation. A refused operation changes nothing.
#[derive(Clone, Copy, Debug, PartialEq, Eq, Structural)]
pub enum LedgerError {
    /// The caller is neither the owner, nor an operator of the owner, nor
    /// covered by a sufficient allowance.
    Unauthorized,
    /// The owner holds less than the amount to be moved or burnt.
    InsufficientBalance,
    /// A balance or a total supply would exceed 256 bits.
    Overflow,
    /// A total supply would fall below zero.
    Underflow,
}

} // verus!
