//! Sums of balances: what all owners together hold of one token.

use vstd::prelude::*;
use crate::keys::BalanceKey;
use crate::word::U256;

verus! {

/// The amount that a table of amounts holds under `key`: zero where it holds
/// none.
pub open spec fn amount_at<K>(m: Map<K, U256>, key: K) -> nat {
    if m.contains_key(key) {
        m[key].value()
    } else {
        0
    }
}

/// What the balance under `key` adds to the sum for `token_id`: the balance
/// itself where the key is of that token, and nothing otherwise.
pub open spec fn share(m: Map<BalanceKey, U256>, token_id: U256, key: BalanceKey) -> nat {
    if key.token_id == token_id {
        amount_at(m, key)
    } else {
        0
    }
}

/// The shares of all keys, as a function of the key.
pub open spec fn shares(m: Map<BalanceKey, U256>, token_id: U256) -> spec_fn(BalanceKey) -> nat {
    |key: BalanceKey| share(m, token_id, key)
}

/// The step of a sum: adds what `h` gives for one more key.
pub open spec fn add_term(h: spec_fn(BalanceKey) -> nat) -> spec_fn(nat, BalanceKey) -> nat {
    |acc: nat, key: BalanceKey| acc + h(key)
}

/// The sum of `h` over the keys in `s`.
pub open spec fn total(s: Set<BalanceKey>, h: spec_fn(BalanceKey) -> nat) -> nat {
    s.fold(0nat, add_term(h))
}

/// The sum of the balances of `token_id` over all owners.
pub open spec fn sum_of_balances(m: Map<BalanceKey, U256>, token_id: U256) -> nat {
    total(m.dom(), shares(m, token_id))
}

proof fn lemma_add_term_commutes(h: spec_fn(BalanceKey) -> nat)
    ensures
        vstd::set::fold::is_fun_commutative(add_term(h)),
{
    let f = add_term(h);
    assert forall|a1: BalanceKey, a2: BalanceKey, b: nat| #[trigger]
        f(f(b, a2), a1) == f(f(b, a1), a2) by {}
}

proof fn lemma_total_insert(s: Set<BalanceKey>, h: spec_fn(BalanceKey) -> nat, key: BalanceKey)
    requires
        s.finite(),
        !s.contains(key),
    ensures
        total(s.insert(key), h) == total(s, h) + h(key),
{
    lemma_add_term_commutes(h);
    vstd::set::fold::lemma_fold_insert(s, 0nat, add_term(h), key);
}

proof fn lemma_total_remove(s: Set<BalanceKey>, h: spec_fn(BalanceKey) -> nat, key: BalanceKey)
    requires
        s.finite(),
        s.contains(key),
    ensures
        total(s, h) == total(s.remove(key), h) + h(key),
{
    lemma_total_insert(s.remove(key), h, key);
    assert(s.remove(key).insert(key) == s);
}

proof fn lemma_total_agree(
    s: Set<BalanceKey>,
    h1: spec_fn(BalanceKey) -> nat,
    h2: spec_fn(BalanceKey) -> nat,
)
    requires
        s.finite(),
        forall|key: BalanceKey| s.contains(key) ==> h1(key) == h2(key),
    ensures
        total(s, h1) == total(s, h2),
    decreases s.len(),
{
    if s.len() == 0 {
        s.lemma_len0_is_empty();
        vstd::set::fold::lemma_fold_empty(0nat, add_term(h1));
        vstd::set::fold::lemma_fold_empty(0nat, add_term(h2));
    } else {
        let key = s.choose();
        lemma_total_remove(s, h1, key);
        lemma_total_remove(s, h2, key);
        lemma_total_agree(s.remove(key), h1, h2);
    }
}

/// Nobody holds anything in the empty table.
pub proof fn lemma_sum_empty(token_id: U256)
    ensures
        sum_of_balances(Map::<BalanceKey, U256>::empty(), token_id) == 0,
{
    let m = Map::<BalanceKey, U256>::empty();
    assert(m.dom() == Set::<BalanceKey>::empty());
    vstd::set::fold::lemma_fold_empty(0nat, add_term(shares(m, token_id)));
}

/// Writing one balance changes the sum for its token by the difference
/// between the new balance and the old, and no other sum.
pub proof fn lemma_sum_insert(
    m: Map<BalanceKey, U256>,
    token_id: U256,
    key: BalanceKey,
    value: U256,
)
    requires
        m.dom().finite(),
    ensures
        sum_of_balances(m.insert(key, value), token_id) + share(m, token_id, key)
            == sum_of_balances(m, token_id) + share(m.insert(key, value), token_id, key),
{
    let n = m.insert(key, value);
    let rest = m.dom().remove(key);
    assert(n.dom().remove(key) == rest);
    lemma_total_remove(n.dom(), shares(n, token_id), key);
    lemma_total_agree(rest, shares(m, token_id), shares(n, token_id));
    if m.dom().contains(key) {
        lemma_total_remove(m.dom(), shares(m, token_id), key);
    } else {
        assert(rest == m.dom());
    }
}

/// One owner never holds more of a token than all owners together.
pub proof fn lemma_share_bounded(m: Map<BalanceKey, U256>, token_id: U256, key: BalanceKey)
    requires
        m.dom().finite(),
    ensures
        share(m, token_id, key) <= sum_of_balances(m, token_id),
{
    if m.dom().contains(key) {
        lemma_total_remove(m.dom(), shares(m, token_id), key);
    }
}

/// Two owners together never hold more of a token than all owners together.
pub proof fn lemma_two_shares_bounded(
    m: Map<BalanceKey, U256>,
    token_id: U256,
    first: BalanceKey,
    second: BalanceKey,
)
    requires
        m.dom().finite(),
        first != second,
    ensures
        share(m, token_id, first) + share(m, token_id, second) <= sum_of_balances(m, token_id),
{
    let h = shares(m, token_id);
    if m.dom().contains(first) && m.dom().contains(second) {
        lemma_total_remove(m.dom(), h, first);
        lemma_total_remove(m.dom().remove(first), h, second);
    } else if m.dom().contains(first) {
        lemma_total_remove(m.dom(), h, first);
    } else if m.dom().contains(second) {
        lemma_total_remove(m.dom(), h, second);
    }
}

} // verus!
