//! What holds of the ledger in every state and over several operations.

use vstd::prelude::*;
use crate::address::Address;
use crate::event::LedgerError;
use crate::keys::BalanceKey;
use crate::ledger::ERC6909;
use crate::rules::{authority_for, Authority};
use crate::sums::{lemma_share_bounded, lemma_two_shares_bounded};
use crate::word::{max_word, U256};

verus! {

/// Conservation. In a ledger that is in order, and so after any sequence of
/// operations on a new ledger, there exist of every token exactly as many as
/// all owners together hold.
pub proof fn lemma_conservation(ledger: ERC6909, token_id: U256)
    requires
        ledger.wf(),
    ensures
        ledger.spec_total_supply(token_id) == ledger.spec_sum_of_balances(token_id),
{
}

/// No owner holds more of a token than exists of it, and no two owners
/// together do.
pub proof fn lemma_balances_within_supply(
    ledger: ERC6909,
    first: Address,
    second: Address,
    token_id: U256,
)
    requires
        ledger.wf(),
    ensures
        ledger.spec_balance_of(first, token_id) <= ledger.spec_total_supply(token_id),
        first != second ==> ledger.spec_balance_of(first, token_id) + ledger.spec_balance_of(
            second,
            token_id,
        ) <= ledger.spec_total_supply(token_id),
{
    let first_key = BalanceKey { owner: first, token_id };
    let second_key = BalanceKey { owner: second, token_id };
    ledger.lemma_finitely_many_holders();
    lemma_share_bounded(ledger.holdings(), token_id, first_key);
    if first != second {
        lemma_two_shares_bounded(ledger.holdings(), token_id, first_key, second_key);
    }
}

/// A transfer keeps the sum of what all owners hold of every token.
pub proof fn lemma_transfer_conserves(
    pre: ERC6909,
    post: ERC6909,
    authority: Authority,
    caller: Address,
    from: Address,
    to: Address,
    token_id: U256,
    amount: U256,
    any_token: U256,
)
    requires
        pre.wf(),
        post.wf(),
        ERC6909::transferred(pre, post, authority, caller, from, to, token_id, amount),
    ensures
        post.spec_sum_of_balances(any_token) == pre.spec_sum_of_balances(any_token),
{
    assert(post.spec_total_supply(any_token) == pre.spec_total_supply(any_token));
}

/// Non-negativity. Whoever asks, a transfer of more than the sender holds is
/// refused: for an insufficient balance where the caller had the authority
/// to move that amount, as unauthorized where not.
pub proof fn lemma_transfer_needs_balance(
    ledger: ERC6909,
    caller: Address,
    from: Address,
    token_id: U256,
    amount: U256,
)
    requires
        ledger.spec_balance_of(from, token_id) < amount.value(),
    ensures
        ledger.transfer_verdict(caller, from, token_id, amount) is Err,
        ledger.transfer_verdict(caller, from, token_id, amount) == Err::<Authority, LedgerError>(
            if authority_for(
                caller,
                from,
                ledger.spec_operator_approval(from, caller),
                ledger.spec_allowance(from, caller, token_id),
                amount.value(),
            ) is Some {
                LedgerError::InsufficientBalance
            } else {
                LedgerError::Unauthorized
            },
        ),
{
}

/// A transfer that is allowed leaves no balance below zero: the sender held
/// at least the amount.
pub proof fn lemma_transfer_within_balance(
    ledger: ERC6909,
    caller: Address,
    from: Address,
    token_id: U256,
    amount: U256,
)
    requires
        ledger.transfer_verdict(caller, from, token_id, amount) is Ok,
    ensures
        ledger.spec_balance_of(from, token_id) >= amount.value(),
{
}

/// Allowance isolation. A transfer that the owner makes, or an operator of
/// the owner, leaves every allowance as it was, that of the caller too.
pub proof fn lemma_owner_and_operator_spare_allowances(
    pre: ERC6909,
    post: ERC6909,
    caller: Address,
    from: Address,
    to: Address,
    token_id: U256,
    amount: U256,
)
    requires
        caller == from || pre.spec_operator_approval(from, caller),
        pre.transfer_verdict(caller, from, token_id, amount) is Ok,
        ERC6909::transferred(
            pre,
            post,
            pre.transfer_verdict(caller, from, token_id, amount)->Ok_0,
            caller,
            from,
            to,
            token_id,
            amount,
        ),
    ensures
        pre.transfer_verdict(caller, from, token_id, amount)->Ok_0 != Authority::Allowance,
        forall|o: Address, s: Address, t: U256| #[trigger]
            post.spec_allowance(o, s, t) == pre.spec_allowance(o, s, t),
{
}

/// A transfer on the ground of an allowance spends exactly the amount moved
/// out of that allowance, and touches no other.
pub proof fn lemma_spender_pays_allowance(
    pre: ERC6909,
    post: ERC6909,
    caller: Address,
    from: Address,
    to: Address,
    token_id: U256,
    amount: U256,
)
    requires
        caller != from,
        !pre.spec_operator_approval(from, caller),
        pre.transfer_verdict(caller, from, token_id, amount) is Ok,
        ERC6909::transferred(
            pre,
            post,
            pre.transfer_verdict(caller, from, token_id, amount)->Ok_0,
            caller,
            from,
            to,
            token_id,
            amount,
        ),
    ensures
        pre.spec_allowance(from, caller, token_id) >= amount.value(),
        post.spec_allowance(from, caller, token_id) == pre.spec_allowance(from, caller, token_id)
            - amount.value(),
        forall|o: Address, s: Address, t: U256|
            !(o == from && s == caller && t == token_id) ==> #[trigger] post.spec_allowance(o, s, t)
                == pre.spec_allowance(o, s, t),
{
}

/// Approve overwrites. After two approvals by one owner for one spender and
/// one token, the allowance is the second amount, whatever the first was: the
/// ledger is as if only the second had been made.
pub proof fn lemma_approve_overwrites(
    start: ERC6909,
    between: ERC6909,
    end: ERC6909,
    owner: Address,
    spender: Address,
    token_id: U256,
    first: U256,
    second: U256,
)
    requires
        ERC6909::approved(start, between, owner, spender, token_id, first),
        ERC6909::approved(between, end, owner, spender, token_id, second),
    ensures
        end.spec_allowance(owner, spender, token_id) == second.value(),
        ERC6909::approved(start, end, owner, spender, token_id, second),
{
    assert forall|o: Address, s: Address, t: U256| #[trigger]
        end.spec_allowance(o, s, t) == if o == owner && s == spender && t == token_id {
            second.value()
        } else {
            start.spec_allowance(o, s, t)
        } by {
        assert(between.spec_allowance(o, s, t) == if o == owner && s == spender && t == token_id {
            first.value()
        } else {
            start.spec_allowance(o, s, t)
        });
    }
    assert forall|t: U256| #[trigger] end.spec_total_supply(t) == start.spec_total_supply(t) by {
        assert(between.spec_total_supply(t) == start.spec_total_supply(t));
    }
    assert forall|o: Address, t: U256| #[trigger]
        end.spec_balance_of(o, t) == start.spec_balance_of(o, t) by {
        assert(between.spec_balance_of(o, t) == start.spec_balance_of(o, t));
    }
    assert forall|o: Address, p: Address| #[trigger]
        end.spec_operator_approval(o, p) == start.spec_operator_approval(o, p) by {
        assert(between.spec_operator_approval(o, p) == start.spec_operator_approval(o, p));
    }
}

/// In a ledger that is in order no transfer can overflow: what the receiver
/// holds and the amount moved together never exceed what exists of the token.
pub proof fn lemma_transfer_fits(
    ledger: ERC6909,
    caller: Address,
    from: Address,
    to: Address,
    token_id: U256,
    amount: U256,
)
    requires
        ledger.wf(),
        from != to,
        ledger.transfer_verdict(caller, from, token_id, amount) is Ok,
    ensures
        ledger.spec_balance_of(to, token_id) + amount.value() <= max_word(),
{
    lemma_balances_within_supply(ledger, from, to, token_id);
}

} // verus!
