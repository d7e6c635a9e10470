//! Unsigned 256-bit amounts, as used for fees in wei.

use crate::outside;
#[allow(unused_imports)]
use crate::text;
use vstd::prelude::*;

verus! {

/// The number that four 64-bit limbs spell, least significant limb first.
pub open spec fn limbs_value(limbs: Seq<u64>) -> nat {
    (limbs[0] + limbs[1] * 0x1_0000_0000_0000_0000 + limbs[2]
        * 0x1_0000_0000_0000_0000_0000_0000_0000_0000 + limbs[3]
        * 0x1_0000_0000_0000_0000_0000_0000_0000_0000_0000_0000_0000_0000) as nat
}

/// An unsigned 256-bit integer.
#[derive(Debug, Clone, Copy, PartialEq, Eq)]
pub struct U256 {
    /// Limbs of 64 bits, least significant first.
    pub limbs: [u64; 4],
}

impl View for U256 {
    type V = nat;

    open spec fn view(&self) -> nat {
        limbs_value(self.limbs@)
    }
}

impl U256 {
    /// The amount with the given value.
    pub fn from_u128(value: u128) -> (r: U256)
        ensures
            r@ == value,
    {
        let low: u64 = (value % 0x1_0000_0000_0000_0000) as u64;
        let high: u64 = (value / 0x1_0000_0000_0000_0000) as u64;
        U256 { limbs: [low, high, 0, 0] }
    }

    /// Whether this amount is smaller than the other.
    pub fn less_than(&self, other: &U256) -> (r: bool)
        ensures
            r == (self@ < other@),
    {
        if self.limbs[3] != other.limbs[3] {
            self.limbs[3] < other.limbs[3]
        } else if self.limbs[2] != other.limbs[2] {
            self.limbs[2] < other.limbs[2]
        } else if self.limbs[1] != other.limbs[1] {
            self.limbs[1] < other.limbs[1]
        } else {
            self.limbs[0] < other.limbs[0]
        }
    }

    /// The larger of two amounts.
    pub fn max(self, other: U256) -> (r: U256)
        ensures
            r@ == if self@ < other@ { other@ } else { self@ },
    {
        if self.less_than(&other) {
            other
        } else {
            self
        }
    }

    /// The decimal text of the amount.
    pub fn to_string(&self) -> (r: String)
        ensures
            r@ == text::decimal_text(self@),
    {
        outside::u256_decimal(self.limbs)
    }
}

/// Each limb counts 2^64 times as much as the one before it, so a larger limb
/// outweighs all limbs below it.
pub proof fn limbs_are_digits(a: U256, b: U256)
    ensures
        a.limbs@[1] == 0 && a.limbs@[2] == 0 && a.limbs@[3] == 0 ==> a@ == a.limbs@[0],
        a@ == a.limbs@[0] + 0x1_0000_0000_0000_0000 * (a.limbs@[1] + 0x1_0000_0000_0000_0000 * (
        a.limbs@[2] + 0x1_0000_0000_0000_0000 * a.limbs@[3])),
        a.limbs@[3] < b.limbs@[3] ==> a@ < b@,
        a.limbs@[3] == b.limbs@[3] && a.limbs@[2] < b.limbs@[2] ==> a@ < b@,
        a@ == b@ ==> a.limbs@ == b.limbs@,
{
    if a@ == b@ {
        assert(a.limbs@ =~= b.limbs@);
    }
}

} // verus!
