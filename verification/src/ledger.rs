//! The token ledger: four tables and the operations that read and change
//! them.
//!
//! Every operation is one step from one state of the ledger to the next. It
//! either runs to its end, or it is refused before anything was written. The
//! caller's identity is handed to each operation that depends on it, and each
//! change hands out the record that describes it.

use vstd::prelude::*;
use crate::address::Address;
use crate::event::{ApprovalSingle, LedgerError, TransferSingle};
use crate::keys::{AllowanceKey, BalanceKey, OperatorKey};
use crate::rules::{
    allowance_left,
    authority_for,
    settle_burn,
    settle_mint,
    settle_transfer,
    Authority,
};
use crate::sums::{
    amount_at,
    lemma_share_bounded,
    lemma_sum_empty,
    lemma_sum_insert,
    lemma_two_shares_bounded,
    sum_of_balances,
};
use crate::table::Table;
use crate::word::{max_word, U256};

verus! {

/// A ledger of many tokens.
///
/// Two ledgers compare equal with `==` where their tables hold the same
/// entries in the order in which they were first written.
#[derive(Clone, Debug, PartialEq, Eq)]
pub struct ERC6909 {
    total_supply: Table<U256, U256>,
    balances: Table<BalanceKey, U256>,
    allowances: Table<AllowanceKey, U256>,
    operators: Table<OperatorKey, bool>,
}

/// The balance of `owner` in `token_id` after `amount` tokens of `moved`
/// went from `from` to `to`, where it was `before`.
pub open spec fn balance_after_transfer(
    before: nat,
    owner: Address,
    token_id: U256,
    from: Address,
    to: Address,
    moved: U256,
    amount: nat,
) -> int {
    if token_id == moved && from != to && owner == from {
        before - amount
    } else if token_id == moved && from != to && owner == to {
        before as int + amount
    } else {
        before as int
    }
}

impl ERC6909 {
    /// The table of total supplies, by token.
    pub closed spec fn supplies(&self) -> Map<U256, U256> {
        self.total_supply@
    }

    /// The table of balances, by owner and token.
    pub closed spec fn holdings(&self) -> Map<BalanceKey, U256> {
        self.balances@
    }

    /// The table of allowances, by owner, spender and token.
    pub closed spec fn budgets(&self) -> Map<AllowanceKey, U256> {
        self.allowances@
    }

    /// The table of operator flags, by owner and operator.
    pub closed spec fn grants(&self) -> Map<OperatorKey, bool> {
        self.operators@
    }

    /// How many tokens of `token_id` exist: zero for a token never minted.
    pub open spec fn spec_total_supply(&self, token_id: U256) -> nat {
        amount_at(self.supplies(), token_id)
    }

    /// How many tokens of `token_id` `owner` holds: zero where none was ever
    /// credited.
    pub open spec fn spec_balance_of(&self, owner: Address, token_id: U256) -> nat {
        amount_at(self.holdings(), BalanceKey { owner, token_id })
    }

    /// How many tokens of `token_id` `spender` may move out of what `owner`
    /// holds: zero where none was ever approved.
    pub open spec fn spec_allowance(
        &self,
        owner: Address,
        spender: Address,
        token_id: U256,
    ) -> nat {
        amount_at(self.budgets(), AllowanceKey { owner, spender, token_id })
    }

    /// Whether `operator` may move all that `owner` holds: `false` where
    /// `owner` never said so.
    pub open spec fn spec_operator_approval(&self, owner: Address, operator: Address) -> bool {
        let key = OperatorKey { owner, operator };
        self.grants().contains_key(key) && self.grants()[key]
    }

    /// What all owners together hold of `token_id`.
    pub open spec fn spec_sum_of_balances(&self, token_id: U256) -> nat {
        sum_of_balances(self.holdings(), token_id)
    }

    /// The four tables are in order.
    pub closed spec fn tables_wf(&self) -> bool {
        &&& self.total_supply.wf()
        &&& self.balances.wf()
        &&& self.allowances.wf()
        &&& self.operators.wf()
    }

    /// The ledger is in order: its tables are, and of every token there
    /// exist as many as all owners together hold.
    pub open spec fn wf(&self) -> bool {
        &&& self.tables_wf()
        &&& forall|token_id: U256| #[trigger]
            self.spec_total_supply(token_id) == self.spec_sum_of_balances(token_id)
    }

    /// `post` is `pre` after `owner` set the allowance of `spender` for
    /// `token_id` to `amount`: that allowance is `amount`, and every other
    /// entry of the four tables is as it was.
    pub open spec fn approved(
        pre: ERC6909,
        post: ERC6909,
        owner: Address,
        spender: Address,
        token_id: U256,
        amount: U256,
    ) -> bool {
        &&& forall|t: U256| #[trigger] post.spec_total_supply(t) == pre.spec_total_supply(t)
        &&& forall|o: Address, t: U256| #[trigger]
            post.spec_balance_of(o, t) == pre.spec_balance_of(o, t)
        &&& forall|o: Address, s: Address, t: U256| #[trigger]
            post.spec_allowance(o, s, t) == if o == owner && s == spender && t == token_id {
                amount.value()
            } else {
                pre.spec_allowance(o, s, t)
            }
        &&& forall|o: Address, p: Address| #[trigger]
            post.spec_operator_approval(o, p) == pre.spec_operator_approval(o, p)
    }

    /// `post` is `pre` after `owner` set the operator flag of `operator` to
    /// `flag`: that flag is `flag`, and every other entry of the four tables
    /// is as it was.
    pub open spec fn operator_set(
        pre: ERC6909,
        post: ERC6909,
        owner: Address,
        operator: Address,
        flag: bool,
    ) -> bool {
        &&& forall|t: U256| #[trigger] post.spec_total_supply(t) == pre.spec_total_supply(t)
        &&& forall|o: Address, t: U256| #[trigger]
            post.spec_balance_of(o, t) == pre.spec_balance_of(o, t)
        &&& forall|o: Address, s: Address, t: U256| #[trigger]
            post.spec_allowance(o, s, t) == pre.spec_allowance(o, s, t)
        &&& forall|o: Address, p: Address| #[trigger]
            post.spec_operator_approval(o, p) == if o == owner && p == operator {
                flag
            } else {
                pre.spec_operator_approval(o, p)
            }
    }

    /// The ground on which `caller` may move `amount` tokens `token_id` of
    /// `from` in this state of the ledger, or the reason for which the
    /// transfer is refused: for want of authority first, and only then for
    /// an insufficient balance.
    pub open spec fn transfer_verdict(
        &self,
        caller: Address,
        from: Address,
        token_id: U256,
        amount: U256,
    ) -> Result<Authority, LedgerError> {
        match authority_for(
            caller,
            from,
            self.spec_operator_approval(from, caller),
            self.spec_allowance(from, caller, token_id),
            amount.value(),
        ) {
            None => Err(LedgerError::Unauthorized),
            Some(authority) => if self.spec_balance_of(from, token_id) < amount.value() {
                Err(LedgerError::InsufficientBalance)
            } else {
                Ok(authority)
            },
        }
    }

    /// `post` is `pre` after `caller` moved, on the ground `authority`,
    /// `amount` tokens `token_id` from `from` to `to`: the sender holds that
    /// much less and the receiver that much more (and as much as before
    /// where the two are one), the allowance of `caller` is spent where it
    /// was the ground, and every other entry of the four tables is as it was.
    pub open spec fn transferred(
        pre: ERC6909,
        post: ERC6909,
        authority: Authority,
        caller: Address,
        from: Address,
        to: Address,
        token_id: U256,
        amount: U256,
    ) -> bool {
        &&& forall|t: U256| #[trigger] post.spec_total_supply(t) == pre.spec_total_supply(t)
        &&& forall|o: Address, t: U256| #[trigger]
            post.spec_balance_of(o, t) == balance_after_transfer(
                pre.spec_balance_of(o, t),
                o,
                t,
                from,
                to,
                token_id,
                amount.value(),
            )
        &&& forall|o: Address, s: Address, t: U256| #[trigger]
            post.spec_allowance(o, s, t) == if o == from && s == caller && t == token_id {
                allowance_left(authority, pre.spec_allowance(o, s, t), amount.value())
            } else {
                pre.spec_allowance(o, s, t)
            }
        &&& forall|o: Address, p: Address| #[trigger]
            post.spec_operator_approval(o, p) == pre.spec_operator_approval(o, p)
    }

    /// `post` is `pre` after `amount` tokens `token_id` were made for `to`:
    /// `to` holds that much more, that much more exists, and every other
    /// entry of the four tables is as it was.
    pub open spec fn minted(
        pre: ERC6909,
        post: ERC6909,
        to: Address,
        token_id: U256,
        amount: U256,
    ) -> bool {
        &&& forall|t: U256| #[trigger]
            post.spec_total_supply(t) == if t == token_id {
                pre.spec_total_supply(t) + amount.value()
            } else {
                pre.spec_total_supply(t)
            }
        &&& forall|o: Address, t: U256| #[trigger]
            post.spec_balance_of(o, t) == if o == to && t == token_id {
                pre.spec_balance_of(o, t) + amount.value()
            } else {
                pre.spec_balance_of(o, t)
            }
        &&& forall|o: Address, s: Address, t: U256| #[trigger]
            post.spec_allowance(o, s, t) == pre.spec_allowance(o, s, t)
        &&& forall|o: Address, p: Address| #[trigger]
            post.spec_operator_approval(o, p) == pre.spec_operator_approval(o, p)
    }

    /// `post` is `pre` after `amount` tokens `token_id` of `from` were
    /// destroyed: `from` holds that much less, that much less exists, and
    /// every other entry of the four tables is as it was.
    pub open spec fn burnt(
        pre: ERC6909,
        post: ERC6909,
        from: Address,
        token_id: U256,
        amount: U256,
    ) -> bool {
        &&& forall|t: U256| #[trigger]
            post.spec_total_supply(t) == if t == token_id {
                pre.spec_total_supply(t) - amount.value()
            } else {
                pre.spec_total_supply(t) as int
            }
        &&& forall|o: Address, t: U256| #[trigger]
            post.spec_balance_of(o, t) == if o == from && t == token_id {
                pre.spec_balance_of(o, t) - amount.value()
            } else {
                pre.spec_balance_of(o, t) as int
            }
        &&& forall|o: Address, s: Address, t: U256| #[trigger]
            post.spec_allowance(o, s, t) == pre.spec_allowance(o, s, t)
        &&& forall|o: Address, p: Address| #[trigger]
            post.spec_operator_approval(o, p) == pre.spec_operator_approval(o, p)
    }

    /// Only finitely many balances were ever written.
    pub proof fn lemma_finitely_many_holders(&self)
        ensures
            self.holdings().dom().finite(),
    {
        self.balances.lemma_finite_domain();
    }

    /// A ledger whose tables are in order, and whose supplies and balances
    /// are those of a ledger in order, is in order.
    proof fn lemma_same_tokens(pre: ERC6909, post: ERC6909)
        requires
            pre.wf(),
            post.tables_wf(),
            post.supplies() == pre.supplies(),
            post.holdings() == pre.holdings(),
        ensures
            post.wf(),
    {
        assert forall|token_id: U256| #[trigger]
            post.spec_total_supply(token_id) == post.spec_sum_of_balances(token_id) by {
            assert(pre.spec_total_supply(token_id) == pre.spec_sum_of_balances(token_id));
        }
    }

    /// The ledger in which nothing was ever minted, approved or delegated.
    pub fn new() -> (r: ERC6909)
        ensures
            r.wf(),
            forall|t: U256| #[trigger] r.spec_total_supply(t) == 0,
            forall|o: Address, t: U256| #[trigger] r.spec_balance_of(o, t) == 0,
            forall|o: Address, s: Address, t: U256| #[trigger] r.spec_allowance(o, s, t) == 0,
            forall|o: Address, p: Address| !#[trigger] r.spec_operator_approval(o, p),
    {
        let r = ERC6909 {
            total_supply: Table::new(),
            balances: Table::new(),
            allowances: Table::new(),
            operators: Table::new(),
        };
        proof {
            assert forall|token_id: U256| #[trigger]
                r.spec_total_supply(token_id) == r.spec_sum_of_balances(token_id) by {
                lemma_sum_empty(token_id);
            }
        }
        r
    }

    /// How many tokens of `token_id` exist.
    pub fn total_supply(&self, token_id: U256) -> (r: U256)
        requires
            self.wf(),
        ensures
            r.value() == self.spec_total_supply(token_id),
    {
        match self.total_supply.get(&token_id) {
            Some(amount) => amount,
            None => U256::zero(),
        }
    }

    /// How many tokens of `token_id` `owner` holds.
    pub fn balance_of(&self, owner: Address, token_id: U256) -> (r: U256)
        requires
            self.wf(),
        ensures
            r.value() == self.spec_balance_of(owner, token_id),
    {
        match self.balances.get(&BalanceKey { owner, token_id }) {
            Some(amount) => amount,
            None => U256::zero(),
        }
    }

    /// How many tokens of `token_id` `spender` may move out of what `owner`
    /// holds.
    pub fn allowance(&self, owner: Address, spender: Address, token_id: U256) -> (r: U256)
        requires
            self.wf(),
        ensures
            r.value() == self.spec_allowance(owner, spender, token_id),
    {
        match self.allowances.get(&AllowanceKey { owner, spender, token_id }) {
            Some(amount) => amount,
            None => U256::zero(),
        }
    }

    /// Whether `operator` may move all that `owner` holds.
    pub fn operator_approval(&self, owner: Address, operator: Address) -> (r: bool)
        requires
            self.wf(),
        ensures
            r == self.spec_operator_approval(owner, operator),
    {
        match self.operators.get(&OperatorKey { owner, operator }) {
            Some(flag) => flag,
            None => false,
        }
    }

    /// Sets what `spender` may move of the tokens `token_id` that `caller`
    /// holds to `amount`, whatever it was, and returns the record of it.
    pub fn approve(
        &mut self,
        caller: Address,
        spender: Address,
        token_id: U256,
        amount: U256,
    ) -> (r: ApprovalSingle)
        requires
            old(self).wf(),
        ensures
            final(self).wf(),
            Self::approved(*old(self), *final(self), caller, spender, token_id, amount),
            r == (ApprovalSingle { owner: caller, spender, token_id, amount }),
    {
        self.allowances.set(AllowanceKey { owner: caller, spender, token_id }, amount);
        proof {
            Self::lemma_same_tokens(*old(self), *self);
        }
        ApprovalSingle { owner: caller, spender, token_id, amount }
    }

    /// Makes `operator` an operator of `caller`, or ends that, as `approved`
    /// says. Always returns `true`.
    pub fn set_operator(&mut self, caller: Address, operator: Address, approved: bool) -> (r: bool)
        requires
            old(self).wf(),
        ensures
            final(self).wf(),
            Self::operator_set(*old(self), *final(self), caller, operator, approved),
            r,
    {
        self.operators.set(OperatorKey { owner: caller, operator }, approved);
        proof {
            Self::lemma_same_tokens(*old(self), *self);
        }
        true
    }

    /// Moves `amount` tokens `token_id` from `from` to `to` at the request of
    /// `caller`, and returns the record of it.
    ///
    /// The caller must be `from`, or an operator of `from`, or hold an
    /// allowance of at least `amount`, which is then spent; else the transfer
    /// is refused as unauthorized. An authorized transfer is refused for an
    /// insufficient balance where `from` holds less than `amount`. A refused
    /// transfer changes nothing. No transfer overflows.
    pub fn transfer_from(
        &mut self,
        caller: Address,
        from: Address,
        to: Address,
        token_id: U256,
        amount: U256,
    ) -> (r: Result<TransferSingle, LedgerError>)
        requires
            old(self).wf(),
        ensures
            final(self).wf(),
            match old(self).transfer_verdict(caller, from, token_id, amount) {
                Ok(authority) => {
                    &&& r == Ok::<TransferSingle, LedgerError>(
                        TransferSingle { operator: caller, from, to, token_id, amount },
                    )
                    &&& Self::transferred(
                        *old(self),
                        *final(self),
                        authority,
                        caller,
                        from,
                        to,
                        token_id,
                        amount,
                    )
                },
                Err(e) => r == Err::<TransferSingle, LedgerError>(e) && *final(self) == *old(self),
            },
    {
        let is_operator = self.operator_approval(from, caller);
        let allowance = self.allowance(from, caller, token_id);
        let from_balance = self.balance_of(from, token_id);
        let to_balance = self.balance_of(to, token_id);
        let from_key = BalanceKey { owner: from, token_id };
        let to_key = BalanceKey { owner: to, token_id };
        proof {
            self.balances.lemma_finite_domain();
            if from != to {
                lemma_two_shares_bounded(self.holdings(), token_id, from_key, to_key);
            }
            assert(self.spec_total_supply(token_id) == self.spec_sum_of_balances(token_id));
        }
        let outcome = match settle_transfer(
            caller,
            from,
            to,
            is_operator,
            allowance,
            from_balance,
            to_balance,
            amount,
        ) {
            Ok(outcome) => outcome,
            Err(e) => {
                return Err(e);
            },
        };
        self.balances.set(from_key, outcome.from_balance);
        let ghost midway = self.balances@;
        proof {
            self.balances.lemma_finite_domain();
        }
        self.balances.set(to_key, outcome.to_balance);
        if outcome.authority == Authority::Allowance {
            self.allowances.set(
                AllowanceKey { owner: from, spender: caller, token_id },
                outcome.allowance,
            );
        }
        proof {
            let before = old(self).holdings();
            assert forall|t: U256| #[trigger]
                self.spec_total_supply(t) == self.spec_sum_of_balances(t) by {
                assert(old(self).spec_total_supply(t) == old(self).spec_sum_of_balances(t));
                lemma_sum_insert(before, t, from_key, outcome.from_balance);
                lemma_sum_insert(midway, t, to_key, outcome.to_balance);
            }
        }
        Ok(TransferSingle { operator: caller, from, to, token_id, amount })
    }

    /// Makes `amount` tokens `token_id` for `to` at the request of `caller`,
    /// and returns the record of it, in which the tokens come from the zero
    /// address.
    ///
    /// The mint is refused for overflow where more than 256 bits would be
    /// needed to count the tokens `token_id` that exist. A refused mint
    /// changes nothing.
    pub fn mint(
        &mut self,
        caller: Address,
        to: Address,
        token_id: U256,
        amount: U256,
    ) -> (r: Result<TransferSingle, LedgerError>)
        requires
            old(self).wf(),
        ensures
            final(self).wf(),
            if old(self).spec_total_supply(token_id) + amount.value() > max_word() {
                r == Err::<TransferSingle, LedgerError>(LedgerError::Overflow) && *final(self)
                    == *old(self)
            } else {
                &&& r == Ok::<TransferSingle, LedgerError>(
                    TransferSingle {
                        operator: caller,
                        from: Address { hi: 0, lo: 0 },
                        to,
                        token_id,
                        amount,
                    },
                )
                &&& Self::minted(*old(self), *final(self), to, token_id, amount)
            },
    {
        let balance = self.balance_of(to, token_id);
        let supply = self.total_supply(token_id);
        let key = BalanceKey { owner: to, token_id };
        proof {
            self.balances.lemma_finite_domain();
            lemma_share_bounded(self.holdings(), token_id, key);
            assert(self.spec_total_supply(token_id) == self.spec_sum_of_balances(token_id));
        }
        let outcome = match settle_mint(balance, supply, amount) {
            Ok(outcome) => outcome,
            Err(e) => {
                return Err(e);
            },
        };
        self.balances.set(key, outcome.balance);
        self.total_supply.set(token_id, outcome.supply);
        proof {
            assert forall|t: U256| #[trigger]
                self.spec_total_supply(t) == self.spec_sum_of_balances(t) by {
                assert(old(self).spec_total_supply(t) == old(self).spec_sum_of_balances(t));
                lemma_sum_insert(old(self).holdings(), t, key, outcome.balance);
            }
        }
        Ok(TransferSingle { operator: caller, from: Address::zero(), to, token_id, amount })
    }

    /// Destroys `amount` tokens `token_id` of `from` at the request of
    /// `caller`, and returns the record of it, in which the tokens go to the
    /// zero address.
    ///
    /// The burn is refused for an insufficient balance where `from` holds
    /// less than `amount`. A refused burn changes nothing. No burn
    /// underflows.
    pub fn burn(
        &mut self,
        caller: Address,
        from: Address,
        token_id: U256,
        amount: U256,
    ) -> (r: Result<TransferSingle, LedgerError>)
        requires
            old(self).wf(),
        ensures
            final(self).wf(),
            if old(self).spec_balance_of(from, token_id) < amount.value() {
                r == Err::<TransferSingle, LedgerError>(LedgerError::InsufficientBalance)
                    && *final(self) == *old(self)
            } else {
                &&& r == Ok::<TransferSingle, LedgerError>(
                    TransferSingle {
                        operator: caller,
                        from,
                        to: Address { hi: 0, lo: 0 },
                        token_id,
                        amount,
                    },
                )
                &&& Self::burnt(*old(self), *final(self), from, token_id, amount)
            },
    {
        let balance = self.balance_of(from, token_id);
        let supply = self.total_supply(token_id);
        let key = BalanceKey { owner: from, token_id };
        proof {
            self.balances.lemma_finite_domain();
            lemma_share_bounded(self.holdings(), token_id, key);
            assert(self.spec_total_supply(token_id) == self.spec_sum_of_balances(token_id));
        }
        let outcome = match settle_burn(balance, supply, amount) {
            Ok(outcome) => outcome,
            Err(e) => {
                return Err(e);
            },
        };
        self.balances.set(key, outcome.balance);
        self.total_supply.set(token_id, outcome.supply);
        proof {
            assert forall|t: U256| #[trigger]
                self.spec_total_supply(t) == self.spec_sum_of_balances(t) by {
                assert(old(self).spec_total_supply(t) == old(self).spec_sum_of_balances(t));
                lemma_sum_insert(old(self).holdings(), t, key, outcome.balance);
            }
        }
        Ok(TransferSingle { operator: caller, from, to: Address::zero(), token_id, amount })
    }
}

impl Default for ERC6909 {
    /// The ledger in which nothing was ever minted, approved or delegated.
    fn default() -> (r: ERC6909)
        ensures
            r.wf(),
            forall|t: U256| #[trigger] r.spec_total_supply(t) == 0,
            forall|o: Address, t: U256| #[trigger] r.spec_balance_of(o, t) == 0,
            forall|o: Address, s: Address, t: U256| #[trigger] r.spec_allowance(o, s, t) == 0,
            forall|o: Address, p: Address| !#[trigger] r.spec_operator_approval(o, p),
    {
        ERC6909::new()
    }
}

} // verus!
