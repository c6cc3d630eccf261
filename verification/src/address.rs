//! Account addresses: 160-bit identities of owners, spenders and operators.

use vstd::prelude::*;

verus! {

/// A 160-bit account address, held as its upper 32 and its lower 128 bits.
///
/// The ledger never looks inside an address: it compares addresses, and it
/// names the zero address as the source of minted and the sink of burnt
/// tokens.
#[derive(Clone, Copy, Debug, PartialEq, Eq, Structural)]
pub struct Address {
    pub hi: u32,
    pub lo: u128,
}

/// The number that four bytes spell, most significant first.
pub open spec fn be32(b0: u8, b1: u8, b2: u8, b3: u8) -> nat {
    b0 as nat * 0x100_0000 + b1 as nat * 0x1_0000 + b2 as nat * 0x100 + b3 as nat
}

/// The number that the sixteen bytes of `s` from index `at` on spell, most
/// significant first.
pub open spec fn be128(s: Seq<u8>, at: int) -> nat {
    be32(s[at], s[at + 1], s[at + 2], s[at + 3]) * 0x1_0000_0000_0000_0000_0000_0000
        + be32(s[at + 4], s[at + 5], s[at + 6], s[at + 7]) * 0x1_0000_0000_0000_0000
        + be32(s[at + 8], s[at + 9], s[at + 10], s[at + 11]) * 0x1_0000_0000
        + be32(s[at + 12], s[at + 13], s[at + 14], s[at + 15])
}

/// The address that twenty bytes spell, most significant first.
pub open spec fn address_of_bytes(s: Seq<u8>) -> Address {
    Address { hi: be32(s[0], s[1], s[2], s[3]) as u32, lo: be128(s, 4) as u128 }
}

/// Four bytes, most significant first, as one 32-bit number.
fn join32(b0: u8, b1: u8, b2: u8, b3: u8) -> (r: u32)
    ensures
        r == be32(b0, b1, b2, b3),
{
    (b0 as u32) * 0x100_0000 + (b1 as u32) * 0x1_0000 + (b2 as u32) * 0x100 + (b3 as u32)
}

impl Address {
    /// The zero address: the sentinel that stands for "nobody".
    pub fn zero() -> (r: Address)
        ensures
            r == (Address { hi: 0, lo: 0 }),
    {
        Address { hi: 0, lo: 0 }
    }

    /// The address whose lowest 64 bits are `v` and whose other bits are zero.
    pub fn from_low_u64_be(v: u64) -> (r: Address)
        ensures
            r == (Address { hi: 0, lo: v as u128 }),
    {
        Address { hi: 0, lo: v as u128 }
    }

    /// The twenty bytes of this address, most significant first.
    pub fn into_bytes(self) -> (r: [u8; 20])
        ensures
            address_of_bytes(r@) == self,
    {
        let a: u32 = (self.lo / 0x1_0000_0000_0000_0000_0000_0000) as u32;
        let b: u32 = ((self.lo / 0x1_0000_0000_0000_0000) % 0x1_0000_0000) as u32;
        let c: u32 = ((self.lo / 0x1_0000_0000) % 0x1_0000_0000) as u32;
        let d: u32 = (self.lo % 0x1_0000_0000) as u32;
        assert(self.lo == a * 0x1_0000_0000_0000_0000_0000_0000 + b * 0x1_0000_0000_0000_0000 + c
            * 0x1_0000_0000 + d);
        let h4 = split32(self.hi);
        let a4 = split32(a);
        let b4 = split32(b);
        let c4 = split32(c);
        let d4 = split32(d);
        let r: [u8; 20] = [
            h4.0, h4.1, h4.2, h4.3,
            a4.0, a4.1, a4.2, a4.3,
            b4.0, b4.1, b4.2, b4.3,
            c4.0, c4.1, c4.2, c4.3,
            d4.0, d4.1, d4.2, d4.3,
        ];
        assert(be32(r@[0], r@[1], r@[2], r@[3]) == self.hi);
        assert(be32(r@[4], r@[5], r@[6], r@[7]) == a);
        assert(be32(r@[8], r@[9], r@[10], r@[11]) == b);
        assert(be32(r@[12], r@[13], r@[14], r@[15]) == c);
        assert(be32(r@[16], r@[17], r@[18], r@[19]) == d);
        r
    }
}

/// The four bytes of a 32-bit number, most significant first.
fn split32(x: u32) -> (r: (u8, u8, u8, u8))
    ensures
        be32(r.0, r.1, r.2, r.3) == x,
{
    (
        (x / 0x100_0000) as u8,
        ((x / 0x1_0000) % 0x100) as u8,
        ((x / 0x100) % 0x100) as u8,
        (x % 0x100) as u8,
    )
}

impl From<[u8; 20]> for Address {
    fn from(bytes: [u8; 20]) -> (r: Address) {
        let h: u32 = join32(bytes[0], bytes[1], bytes[2], bytes[3]);
        let a: u32 = join32(bytes[4], bytes[5], bytes[6], bytes[7]);
        let b: u32 = join32(bytes[8], bytes[9], bytes[10], bytes[11]);
        let c: u32 = join32(bytes[12], bytes[13], bytes[14], bytes[15]);
        let d: u32 = join32(bytes[16], bytes[17], bytes[18], bytes[19]);
        let lo: u128 = (a as u128) * 0x1_0000_0000_0000_0000_0000_0000 + (b as u128)
            * 0x1_0000_0000_0000_0000 + (c as u128) * 0x1_0000_0000 + (d as u128);
        Address { hi: h, lo }
    }
}

impl vstd::std_specs::convert::FromSpecImpl<[u8; 20]> for Address {
    open spec fn obeys_from_spec() -> bool {
        true
    }

    open spec fn from_spec(bytes: [u8; 20]) -> Address {
        address_of_bytes(bytes@)
    }
}

} // verus!
