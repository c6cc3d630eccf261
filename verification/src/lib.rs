//! A ledger of many tokens in one contract, after ERC-6909: balances per
//! owner and token identifier, allowances per spender, and operators who may
//! move all that an owner holds.

pub mod address;
pub mod event;
pub mod keys;
pub mod laws;
pub mod ledger;
pub mod rules;
pub mod sums;
pub mod table;
pub mod word;
