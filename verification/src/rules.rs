//! The rules of the ledger on plain values: who may move tokens, and what a
//! transfer, a mint and a burn make of the amounts they touch.
//!
//! Nothing here reads or writes a table. Each function takes the entries that
//! an operation concerns, and returns either what they become or the reason
//! for which the operation is refused.

use vstd::prelude::*;
use crate::address::Address;
use crate::event::LedgerError;
use crate::word::{max_word, U256};

verus! {

/// The ground on which a caller may move an owner's tokens.
#[derive(Clone, Copy, Debug, PartialEq, Eq, Structural)]
pub enum Authority {
    /// The caller is the owner.
    Owner,
    /// The owner has made the caller an operator.
    Operator,
    /// The owner's allowance for the caller covers the amount.
    Allowance,
}

/// The ground on which `caller` may move `amount` tokens of `from`, if there
/// is one. The three grounds are tried in this order, and the first that
/// holds is taken: ownership, then operator status, then the allowance.
pub open spec fn authority_for(
    caller: Address,
    from: Address,
    is_operator: bool,
    allowance: nat,
    amount: nat,
) -> Option<Authority> {
    if caller == from {
        Some(Authority::Owner)
    } else if is_operator {
        Some(Authority::Operator)
    } else if allowance >= amount {
        Some(Authority::Allowance)
    } else {
        None
    }
}

/// What an authorized caller leaves of the allowance: it is spent only where
/// it was the ground of the transfer.
pub open spec fn allowance_left(authority: Authority, allowance: nat, amount: nat) -> nat {
    if authority == Authority::Allowance {
        (allowance - amount) as nat
    } else {
        allowance
    }
}

/// The entries that a transfer concerns, as it leaves them.
#[derive(Clone, Copy, Debug, PartialEq, Eq, Structural)]
pub struct Transfer {
    /// The ground on which the transfer was allowed.
    pub authority: Authority,
    /// What the caller may still spend of the sender's tokens.
    pub allowance: U256,
    /// The sender's balance.
    pub from_balance: U256,
    /// The receiver's balance.
    pub to_balance: U256,
}

/// A balance and the total supply of its token, as a mint or a burn leaves
/// them.
#[derive(Clone, Copy, Debug, PartialEq, Eq, Structural)]
pub struct Holding {
    pub balance: U256,
    pub supply: U256,
}

/// Decides whether `caller` may move `amount` tokens of `from`, and returns
/// the ground together with the allowance that is left.
pub fn authorize(
    caller: Address,
    from: Address,
    is_operator: bool,
    allowance: U256,
    amount: U256,
) -> (r: Result<(Authority, U256), LedgerError>)
    ensures
        match authority_for(caller, from, is_operator, allowance.value(), amount.value()) {
            Some(authority) => r is Ok && r->Ok_0.0 == authority && r->Ok_0.1.value()
                == allowance_left(authority, allowance.value(), amount.value()),
            None => r == Err::<(Authority, U256), LedgerError>(LedgerError::Unauthorized),
        },
{
    if caller == from {
        Ok((Authority::Owner, allowance))
    } else if is_operator {
        Ok((Authority::Operator, allowance))
    } else {
        match allowance.checked_sub(amount) {
            Some(left) => Ok((Authority::Allowance, left)),
            None => Err(LedgerError::Unauthorized),
        }
    }
}

/// Settles a transfer of `amount` tokens from `from` to `to` at the request of
/// `caller`, given the operator flag and the allowance that `from` has set
/// for `caller`, and the two balances before the transfer.
///
/// The request is refused as unauthorized where `caller` has no ground to
/// move the tokens; otherwise for an insufficient balance where `from` holds
/// less than `amount`; otherwise for overflow where the receiver's balance
/// would exceed 256 bits. A transfer to oneself leaves the balance as it was,
/// whatever `to_balance` says.
pub fn settle_transfer(
    caller: Address,
    from: Address,
    to: Address,
    is_operator: bool,
    allowance: U256,
    from_balance: U256,
    to_balance: U256,
    amount: U256,
) -> (r: Result<Transfer, LedgerError>)
    ensures
        match authority_for(caller, from, is_operator, allowance.value(), amount.value()) {
            None => r == Err::<Transfer, LedgerError>(LedgerError::Unauthorized),
            Some(authority) => if from_balance.value() < amount.value() {
                r == Err::<Transfer, LedgerError>(LedgerError::InsufficientBalance)
            } else if from != to && to_balance.value() + amount.value() > max_word() {
                r == Err::<Transfer, LedgerError>(LedgerError::Overflow)
            } else {
                &&& r is Ok
                &&& r->Ok_0.authority == authority
                &&& r->Ok_0.allowance.value() == allowance_left(
                    authority,
                    allowance.value(),
                    amount.value(),
                )
                &&& from == to ==> r->Ok_0.from_balance == from_balance && r->Ok_0.to_balance
                    == from_balance
                &&& from != to ==> r->Ok_0.from_balance.value() == from_balance.value()
                    - amount.value() && r->Ok_0.to_balance.value() == to_balance.value()
                    + amount.value()
            },
        },
{
    let (authority, left) = match authorize(caller, from, is_operator, allowance, amount) {
        Ok(granted) => granted,
        Err(e) => {
            return Err(e);
        },
    };
    let lowered = match from_balance.checked_sub(amount) {
        Some(b) => b,
        None => {
            return Err(LedgerError::InsufficientBalance);
        },
    };
    if from == to {
        return Ok(
            Transfer { authority, allowance: left, from_balance, to_balance: from_balance },
        );
    }
    match to_balance.checked_add(amount) {
        Some(raised) => Ok(
            Transfer { authority, allowance: left, from_balance: lowered, to_balance: raised },
        ),
        None => Err(LedgerError::Overflow),
    }
}

/// Settles a mint of `amount` tokens, given the receiver's balance and the
/// token's total supply before it. It is refused for overflow where either
/// would exceed 256 bits.
pub fn settle_mint(balance: U256, supply: U256, amount: U256) -> (r: Result<Holding, LedgerError>)
    ensures
        if balance.value() + amount.value() > max_word() || supply.value() + amount.value()
            > max_word() {
            r == Err::<Holding, LedgerError>(LedgerError::Overflow)
        } else {
            &&& r is Ok
            &&& r->Ok_0.balance.value() == balance.value() + amount.value()
            &&& r->Ok_0.supply.value() == supply.value() + amount.value()
        },
{
    match (balance.checked_add(amount), supply.checked_add(amount)) {
        (Some(b), Some(s)) => Ok(Holding { balance: b, supply: s }),
        _ => Err(LedgerError::Overflow),
    }
}

/// Settles a burn of `amount` tokens, given the owner's balance and the
/// token's total supply before it. It is refused for an insufficient balance
/// where the owner holds less than `amount`; otherwise for underflow where
/// the total supply is less than `amount`.
pub fn settle_burn(balance: U256, supply: U256, amount: U256) -> (r: Result<Holding, LedgerError>)
    ensures
        if balance.value() < amount.value() {
            r == Err::<Holding, LedgerError>(LedgerError::InsufficientBalance)
        } else if supply.value() < amount.value() {
            r == Err::<Holding, LedgerError>(LedgerError::Underflow)
        } else {
            &&& r is Ok
            &&& r->Ok_0.balance.value() + amount.value() == balance.value()
            &&& r->Ok_0.supply.value() + amount.value() == supply.value()
        },
{
    let b = match balance.checked_sub(amount) {
        Some(b) => b,
        None => {
            return Err(LedgerError::InsufficientBalance);
        },
    };
    match supply.checked_sub(amount) {
        Some(s) => Ok(Holding { balance: b, supply: s }),
        None => Err(LedgerError::Underflow),
    }
}

} // verus!
