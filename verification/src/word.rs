//! 256-bit unsigned quantities: token identifiers and amounts.
//!
//! A quantity is held as four 64-bit limbs, least significant first, and is
//! read in contracts through [`U256::value`]. The two checked operations are
//! performed by `alloy_primitives::U256`.

use vstd::prelude::*;

verus! {

/// An unsigned 256-bit integer.
#[derive(Clone, Copy, Debug, PartialEq, Eq, Structural)]
pub struct U256 {
    pub l0: u64,
    pub l1: u64,
    pub l2: u64,
    pub l3: u64,
}

/// The largest number that a [`U256`] can hold: two to the 256th power, less one.
pub open spec fn max_word() -> nat {
    0xffff_ffff_ffff_ffff_ffff_ffff_ffff_ffff_ffff_ffff_ffff_ffff_ffff_ffff_ffff_ffffnat
}

/// Two numbers written as a 64-bit digit below a rest are equal only where
/// the digits are and the rests are.
proof fn lemma_same_digits(digit: u64, rest: nat, other_digit: u64, other_rest: nat)
    requires
        digit + rest * 0x1_0000_0000_0000_0000 == other_digit + other_rest
            * 0x1_0000_0000_0000_0000,
    ensures
        digit == other_digit,
        rest == other_rest,
{
}

impl U256 {
    /// The number that this quantity stands for.
    pub open spec fn value(self) -> nat {
        self.l0 as nat + self.l1 as nat * 0x1_0000_0000_0000_0000 + self.l2 as nat
            * 0x1_0000_0000_0000_0000_0000_0000_0000_0000 + self.l3 as nat
            * 0x1_0000_0000_0000_0000_0000_0000_0000_0000_0000_0000_0000_0000
    }

    /// The quantity zero.
    pub fn zero() -> (r: U256)
        ensures
            r.value() == 0,
            r == (U256 { l0: 0, l1: 0, l2: 0, l3: 0 }),
    {
        U256 { l0: 0, l1: 0, l2: 0, l3: 0 }
    }

    /// The quantity made of the given limbs, least significant first.
    pub fn from_limbs(limbs: [u64; 4]) -> (r: U256)
        ensures
            r == (U256 { l0: limbs[0], l1: limbs[1], l2: limbs[2], l3: limbs[3] }),
    {
        U256 { l0: limbs[0], l1: limbs[1], l2: limbs[2], l3: limbs[3] }
    }

    /// The four limbs of this quantity, least significant first.
    pub fn into_limbs(self) -> (r: [u64; 4])
        ensures
            r@ == seq![self.l0, self.l1, self.l2, self.l3],
    {
        [self.l0, self.l1, self.l2, self.l3]
    }

    /// Two quantities that stand for the same number are the same quantity:
    /// a contract that gives the value of a result gives the result.
    pub proof fn lemma_value_injective(self, other: U256)
        requires
            self.value() == other.value(),
        ensures
            self == other,
    {
        let high = self.l1 as nat + self.l2 as nat * 0x1_0000_0000_0000_0000 + self.l3 as nat
            * 0x1_0000_0000_0000_0000_0000_0000_0000_0000;
        let other_high = other.l1 as nat + other.l2 as nat * 0x1_0000_0000_0000_0000
            + other.l3 as nat * 0x1_0000_0000_0000_0000_0000_0000_0000_0000;
        lemma_same_digits(self.l0, high, other.l0, other_high);
        let top = self.l2 as nat + self.l3 as nat * 0x1_0000_0000_0000_0000;
        let other_top = other.l2 as nat + other.l3 as nat * 0x1_0000_0000_0000_0000;
        lemma_same_digits(self.l1, top, other.l1, other_top);
        lemma_same_digits(self.l2, self.l3 as nat, other.l2, other.l3 as nat);
    }

    /// The sum of two quantities, or `None` when it exceeds [`max_word`].
    pub fn checked_add(self, rhs: U256) -> (r: Option<U256>)
        ensures
            match r {
                Some(s) => s.value() == self.value() + rhs.value(),
                None => self.value() + rhs.value() > max_word(),
            },
    {
        word_checked_add(self, rhs)
    }

    /// The difference of two quantities, or `None` when `rhs` is the larger.
    pub fn checked_sub(self, rhs: U256) -> (r: Option<U256>)
        ensures
            match r {
                Some(d) => d.value() + rhs.value() == self.value(),
                None => self.value() < rhs.value(),
            },
    {
        word_checked_sub(self, rhs)
    }
}

impl From<u64> for U256 {
    fn from(v: u64) -> (r: U256) {
        U256 { l0: v, l1: 0, l2: 0, l3: 0 }
    }
}

impl vstd::std_specs::convert::FromSpecImpl<u64> for U256 {
    open spec fn obeys_from_spec() -> bool {
        true
    }

    open spec fn from_spec(v: u64) -> U256 {
        U256 { l0: v, l1: 0, l2: 0, l3: 0 }
    }
}

/// Calls `checked_add` of `alloy_primitives::U256` (ruint's `Uint<256, 4>`),
/// which is built from and taken apart into the same four limbs. The contract
/// claims what that method documents: the sum where it fits in 256 bits, and
/// `None` where it does not.
#[verifier::external_body]
fn word_checked_add(a: U256, b: U256) -> (r: Option<U256>)
    ensures
        match r {
            Some(s) => s.value() == a.value() + b.value(),
            None => a.value() + b.value() > max_word(),
        },
{
    let x = alloy_primitives::U256::from_limbs([a.l0, a.l1, a.l2, a.l3]);
    let y = alloy_primitives::U256::from_limbs([b.l0, b.l1, b.l2, b.l3]);
    match x.checked_add(y) {
        Some(s) => {
            let w = s.into_limbs();
            Some(U256 { l0: w[0], l1: w[1], l2: w[2], l3: w[3] })
        },
        None => None,
    }
}

/// Calls `checked_sub` of `alloy_primitives::U256` (ruint's `Uint<256, 4>`),
/// which is built from and taken apart into the same four limbs. The contract
/// claims what that method documents: the difference where the first operand
/// is at least the second, and `None` where it is smaller.
#[verifier::external_body]
fn word_checked_sub(a: U256, b: U256) -> (r: Option<U256>)
    ensures
        match r {
            Some(d) => d.value() + b.value() == a.value(),
            None => a.value() < b.value(),
        },
{
    let x = alloy_primitives::U256::from_limbs([a.l0, a.l1, a.l2, a.l3]);
    let y = alloy_primitives::U256::from_limbs([b.l0, b.l1, b.l2, b.l3]);
    match x.checked_sub(y) {
        Some(d) => {
            let w = d.into_limbs();
            Some(U256 { l0: w[0], l1: w[1], l2: w[2], l3: w[3] })
        },
        None => None,
    }
}

} // verus!
