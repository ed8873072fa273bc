//! Exact totals of token balances.
//!
//! A balance is a `u128` and a transaction may hold many cells, so the
//! total of their balances need not fit a `u128`. A [`TokenSum`] keeps the
//! total exactly, so that totals are compared as numbers and never wrap.

use vstd::prelude::*;

verus! {

/// The number of values of a `u128`.
pub open spec fn u128_range() -> nat {
    u128::MAX as nat + 1
}

/// A total of token balances: `carries` times the range of a `u128`, plus
/// `low`.
#[derive(Debug, Clone, Copy, PartialEq, Eq)]
pub struct TokenSum {
    pub carries: usize,
    pub low: u128,
}

/// One carry more is one range more, and more carries outweigh any low
/// part.
proof fn lemma_carries(a: nat, b: nat, range: nat)
    ensures
        (a + 1) * range == a * range + range,
        a > b ==> a * range >= b * range + range,
        a == 0 ==> a * range == 0,
        a >= 1 ==> a * range >= range,
{
    assert((a + 1) * range == a * range + range) by (nonlinear_arith);
    assert(a > b ==> a * range >= b * range + range) by (nonlinear_arith);
    assert(a == 0 ==> a * range == 0) by (nonlinear_arith);
    assert(a >= 1 ==> a * range >= range) by (nonlinear_arith);
}

impl TokenSum {
    /// The number that the total stands for.
    pub open spec fn value(self) -> nat {
        self.carries as nat * u128_range() + self.low as nat
    }

    /// The empty total.
    pub fn zero() -> (r: TokenSum)
        ensures
            r.value() == 0,
            r.carries == 0,
    {
        TokenSum { carries: 0, low: 0 }
    }

    /// The total with one more balance in it. The count of carries must
    /// have room for one more, as it has in every total of fewer than
    /// `usize::MAX` balances.
    pub fn plus(self, amount: u128) -> (r: TokenSum)
        requires
            self.carries < usize::MAX,
        ensures
            r.value() == self.value() + amount,
            self.carries <= r.carries <= self.carries + 1,
    {
        proof {
            lemma_carries(self.carries as nat, 0, u128_range());
        }
        let room = u128::MAX - self.low;
        if amount > room {
            TokenSum { carries: self.carries + 1, low: amount - room - 1 }
        } else {
            TokenSum { carries: self.carries, low: self.low + amount }
        }
    }

    /// Whether the total is at least `other`.
    pub fn at_least(&self, other: &TokenSum) -> (r: bool)
        ensures
            r == (self.value() >= other.value()),
    {
        proof {
            lemma_carries(self.carries as nat, other.carries as nat, u128_range());
            lemma_carries(other.carries as nat, self.carries as nat, u128_range());
        }
        self.carries > other.carries || (self.carries == other.carries && self.low >= other.low)
    }

    /// Whether the total is exactly `amount`.
    pub fn equals(&self, amount: u128) -> (r: bool)
        ensures
            r == (self.value() == amount),
    {
        proof {
            lemma_carries(self.carries as nat, 0, u128_range());
        }
        self.carries == 0 && self.low == amount
    }

    /// The total as a `u128`, where it fits.
    pub fn to_u128(&self) -> (r: Option<u128>)
        ensures
            r == (if self.value() < u128_range() {
                Some(self.value() as u128)
            } else {
                None
            }),
    {
        proof {
            lemma_carries(self.carries as nat, 0, u128_range());
        }
        if self.carries == 0 {
            Some(self.low)
        } else {
            None
        }
    }
}

} // verus!
