//! Unsigned 256-bit amounts: reputation, funds and vote indices.
//!
//! An amount is held as four 64-bit words and stands for a natural number below 2^256.
//! Ordering is decided on the words; sums, differences, products and quotients are
//! computed by `casper_types::U256`.
use vstd::prelude::*;

verus! {

/// An unsigned 256-bit amount, held as four 64-bit words, least significant first.
#[derive(Clone, Copy, Debug, PartialEq, Eq, Hash, Structural)]
pub struct U256 {
    pub w0: u64,
    pub w1: u64,
    pub w2: u64,
    pub w3: u64,
}

/// The largest value an amount holds: 2^256 - 1.
pub open spec fn u256_max() -> nat {
    0xffff_ffff_ffff_ffff_ffff_ffff_ffff_ffff_ffff_ffff_ffff_ffff_ffff_ffff_ffff_ffffnat
}

impl View for U256 {
    type V = nat;

    /// The number that the four words stand for.
    open spec fn view(&self) -> nat {
        (self.w0 as nat) + (self.w1 as nat) * 0x1_0000_0000_0000_0000nat + (self.w2 as nat)
            * 0x1_0000_0000_0000_0000_0000_0000_0000_0000nat + (self.w3 as nat)
            * 0x1_0000_0000_0000_0000_0000_0000_0000_0000_0000_0000_0000_0000nat
    }
}

impl U256 {
    /// The words as a tuple, most significant first: tuples of this shape are ordered as
    /// the amounts they stand for, so they serve as keys of ordered maps.
    pub open spec fn spec_key(self) -> (u64, u64, u64, u64) {
        (self.w3, self.w2, self.w1, self.w0)
    }

    /// The amount that a key stands for.
    pub open spec fn spec_from_key(k: (u64, u64, u64, u64)) -> U256 {
        U256 { w0: k.3, w1: k.2, w2: k.1, w3: k.0 }
    }

    /// Every amount is at most 2^256 - 1.
    pub proof fn lemma_bounded(self)
        ensures
            self@ <= u256_max(),
    {
    }

    /// Two amounts that stand for the same number are the same amount.
    pub proof fn lemma_view_injective(self, other: U256)
        ensures
            self@ == other@ <==> self == other,
    {
    }

    /// The amount zero.
    pub fn zero() -> (r: U256)
        ensures
            r@ == 0,
    {
        U256 { w0: 0, w1: 0, w2: 0, w3: 0 }
    }

    /// The amount `x`.
    pub fn from_u64(x: u64) -> (r: U256)
        ensures
            r@ == x,
    {
        U256 { w0: x, w1: 0, w2: 0, w3: 0 }
    }

    /// The amount `x`.
    pub fn from_u128(x: u128) -> (r: U256)
        ensures
            r@ == x,
    {
        let low: u64 = (x & 0xffff_ffff_ffff_ffff) as u64;
        let high: u64 = (x >> 64) as u64;
        assert(x == (x & 0xffff_ffff_ffff_ffff) + (x >> 64) * 0x1_0000_0000_0000_0000) by (bit_vector);
        assert((x & 0xffff_ffff_ffff_ffff) <= 0xffff_ffff_ffff_ffff) by (bit_vector);
        assert((x >> 64) <= 0xffff_ffff_ffff_ffff) by (bit_vector);
        U256 { w0: low, w1: high, w2: 0, w3: 0 }
    }

    /// The key of this amount in an ordered map.
    pub fn key(&self) -> (r: (u64, u64, u64, u64))
        ensures
            r == self.spec_key(),
    {
        (self.w3, self.w2, self.w1, self.w0)
    }

    /// The amount that a key stands for.
    pub fn from_key(k: (u64, u64, u64, u64)) -> (r: U256)
        ensures
            r == U256::spec_from_key(k),
            r.spec_key() == k,
    {
        U256 { w0: k.3, w1: k.2, w2: k.1, w3: k.0 }
    }

    /// Whether the amount is zero.
    pub fn is_zero(&self) -> (r: bool)
        ensures
            r == (self@ == 0),
    {
        self.w0 == 0 && self.w1 == 0 && self.w2 == 0 && self.w3 == 0
    }

    /// Whether `self` is below `other`.
    pub fn lt(&self, other: &U256) -> (r: bool)
        ensures
            r == (self@ < other@),
    {
        if self.w3 != other.w3 {
            self.w3 < other.w3
        } else if self.w2 != other.w2 {
            self.w2 < other.w2
        } else if self.w1 != other.w1 {
            self.w1 < other.w1
        } else {
            self.w0 < other.w0
        }
    }

    /// Whether `self` is at most `other`.
    pub fn le(&self, other: &U256) -> (r: bool)
        ensures
            r == (self@ <= other@),
    {
        !other.lt(self)
    }

    /// Whether `self` is above `other`.
    pub fn gt(&self, other: &U256) -> (r: bool)
        ensures
            r == (self@ > other@),
    {
        other.lt(self)
    }

    /// Whether `self` is at least `other`.
    pub fn ge(&self, other: &U256) -> (r: bool)
        ensures
            r == (self@ >= other@),
    {
        !self.lt(other)
    }

    /// Whether the two amounts are the same.
    pub fn same(&self, other: &U256) -> (r: bool)
        ensures
            r == (self@ == other@),
            r == (*self == *other),
    {
        self.w0 == other.w0 && self.w1 == other.w1 && self.w2 == other.w2 && self.w3 == other.w3
    }

    /// The sum, or `None` where it does not fit in 256 bits.
    pub fn checked_add(&self, other: &U256) -> (r: Option<U256>)
        ensures
            match r {
                Some(s) => s@ == self@ + other@,
                None => self@ + other@ > u256_max(),
            },
    {
        casper_checked_add(*self, *other)
    }

    /// The difference, or `None` where `other` is the larger.
    pub fn checked_sub(&self, other: &U256) -> (r: Option<U256>)
        ensures
            match r {
                Some(d) => d@ == self@ - other@,
                None => self@ < other@,
            },
    {
        casper_checked_sub(*self, *other)
    }

    /// The product, or `None` where it does not fit in 256 bits.
    pub fn checked_mul(&self, other: &U256) -> (r: Option<U256>)
        ensures
            match r {
                Some(p) => p@ == self@ * other@,
                None => self@ * other@ > u256_max(),
            },
    {
        casper_checked_mul(*self, *other)
    }

    /// The quotient, rounded down, or `None` where `other` is zero.
    pub fn checked_div(&self, other: &U256) -> (r: Option<U256>)
        ensures
            match r {
                Some(q) => other@ != 0 && q@ == self@ / other@,
                None => other@ == 0,
            },
    {
        casper_checked_div(*self, *other)
    }

    /// The sum of two amounts that is known to fit.
    pub fn add(&self, other: &U256) -> (r: U256)
        requires
            self@ + other@ <= u256_max(),
        ensures
            r@ == self@ + other@,
    {
        match casper_checked_add(*self, *other) {
            Some(s) => s,
            None => unreached(),
        }
    }

    /// The difference of two amounts, the second at most the first.
    pub fn sub(&self, other: &U256) -> (r: U256)
        requires
            other@ <= self@,
        ensures
            r@ == self@ - other@,
    {
        match casper_checked_sub(*self, *other) {
            Some(d) => d,
            None => unreached(),
        }
    }

    /// The product of two amounts that is known to fit.
    pub fn mul(&self, other: &U256) -> (r: U256)
        requires
            self@ * other@ <= u256_max(),
        ensures
            r@ == self@ * other@,
    {
        match casper_checked_mul(*self, *other) {
            Some(p) => p,
            None => unreached(),
        }
    }

    /// The quotient of an amount by one that is not zero, rounded down.
    pub fn div(&self, other: &U256) -> (r: U256)
        requires
            other@ != 0,
        ensures
            r@ == self@ / other@,
    {
        match casper_checked_div(*self, *other) {
            Some(q) => q,
            None => unreached(),
        }
    }
}

/// Calls `casper_types::U256::checked_add`, which returns the sum of its two operands
/// where no overflow occurred and `None` where one did.
#[verifier::external_body]
fn casper_checked_add(a: U256, b: U256) -> (r: Option<U256>)
    ensures
        match r {
            Some(s) => s@ == a@ + b@,
            None => a@ + b@ > u256_max(),
        },
{
    let x = casper_types::U256([a.w0, a.w1, a.w2, a.w3]);
    let y = casper_types::U256([b.w0, b.w1, b.w2, b.w3]);
    match x.checked_add(y) {
        Some(z) => Some(U256 { w0: z.0[0], w1: z.0[1], w2: z.0[2], w3: z.0[3] }),
        None => None,
    }
}

/// Calls `casper_types::U256::checked_sub`, which returns the first operand less the
/// second where no underflow occurred and `None` where one did.
#[verifier::external_body]
fn casper_checked_sub(a: U256, b: U256) -> (r: Option<U256>)
    ensures
        match r {
            Some(d) => d@ == a@ - b@,
            None => a@ < b@,
        },
{
    let x = casper_types::U256([a.w0, a.w1, a.w2, a.w3]);
    let y = casper_types::U256([b.w0, b.w1, b.w2, b.w3]);
    match x.checked_sub(y) {
        Some(z) => Some(U256 { w0: z.0[0], w1: z.0[1], w2: z.0[2], w3: z.0[3] }),
        None => None,
    }
}

/// Calls `casper_types::U256::checked_mul`, which returns the product of its two operands
/// where no overflow occurred and `None` where one did.
#[verifier::external_body]
fn casper_checked_mul(a: U256, b: U256) -> (r: Option<U256>)
    ensures
        match r {
            Some(p) => p@ == a@ * b@,
            None => a@ * b@ > u256_max(),
        },
{
    let x = casper_types::U256([a.w0, a.w1, a.w2, a.w3]);
    let y = casper_types::U256([b.w0, b.w1, b.w2, b.w3]);
    match x.checked_mul(y) {
        Some(z) => Some(U256 { w0: z.0[0], w1: z.0[1], w2: z.0[2], w3: z.0[3] }),
        None => None,
    }
}

/// Calls `casper_types::U256::checked_div`, which returns `None` where the second operand
/// is zero and otherwise the quotient of the first by the second, rounded down.
#[verifier::external_body]
fn casper_checked_div(a: U256, b: U256) -> (r: Option<U256>)
    ensures
        match r {
            Some(q) => b@ != 0 && q@ == a@ / b@,
            None => b@ == 0,
        },
{
    let x = casper_types::U256([a.w0, a.w1, a.w2, a.w3]);
    let y = casper_types::U256([b.w0, b.w1, b.w2, b.w3]);
    match x.checked_div(y) {
        Some(z) => Some(U256 { w0: z.0[0], w1: z.0[1], w2: z.0[2], w3: z.0[3] }),
        None => None,
    }
}

} // verus!
