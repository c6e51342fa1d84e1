//! A 256-bit unsigned integer made of two 128-bit limbs, with checked
//! arithmetic specified over its mathematical value.

use vstd::prelude::*;

verus! {

/// 2^128, the weight of the high limb.
pub open spec fn limb_base() -> nat {
    0x1_0000_0000_0000_0000 * 0x1_0000_0000_0000_0000
}

/// 2^256, the first value that does not fit in a `U256`.
pub open spec fn u256_bound() -> nat {
    limb_base() * limb_base()
}

/// Every `U256` value lies below 2^256.
pub proof fn lemma_u256_bound(v: U256)
    ensures
        v@ < u256_bound(),
{
    assert(limb_base() == u128::MAX + 1);
    assert(v.hi * limb_base() + v.lo < limb_base() * limb_base()) by (nonlinear_arith)
        requires
            v.hi <= u128::MAX,
            v.lo <= u128::MAX,
            limb_base() == u128::MAX + 1,
    ;
}

/// 2^256 exceeds every value a single limb can hold.
pub proof fn lemma_u256_bound_exceeds_u128()
    ensures
        u256_bound() > u128::MAX,
{
    assert(limb_base() == u128::MAX + 1);
    assert(limb_base() * limb_base() > u128::MAX) by (nonlinear_arith)
        requires
            limb_base() == u128::MAX + 1,
    ;
}

/// An unsigned 256-bit integer: `hi * 2^128 + lo`.
#[derive(Clone, Copy, Debug, PartialEq, Eq, Structural)]
pub struct U256 {
    pub hi: u128,
    pub lo: u128,
}

impl View for U256 {
    type V = nat;

    open spec fn view(&self) -> nat {
        (self.hi * limb_base() + self.lo) as nat
    }
}

impl U256 {
    /// The zero value.
    pub fn zero() -> (r: U256)
        ensures
            r == (U256 { hi: 0, lo: 0 }),
            r@ == 0,
    {
        U256 { hi: 0, lo: 0 }
    }

    /// Embeds a `u64`.
    pub fn from_u64(v: u64) -> (r: U256)
        ensures
            r@ == v,
    {
        U256 { hi: 0, lo: v as u128 }
    }

    /// Embeds a `u128`.
    pub fn from_u128(v: u128) -> (r: U256)
        ensures
            r@ == v,
    {
        U256 { hi: 0, lo: v }
    }

    /// Whether this is the zero value.
    pub fn is_zero(&self) -> (r: bool)
        ensures
            r <==> self@ == 0,
    {
        proof {
            assert(limb_base() > 0);
            if self.hi > 0 {
                assert(self.hi * limb_base() >= limb_base()) by (nonlinear_arith)
                    requires self.hi >= 1;
            }
        }
        self.hi == 0 && self.lo == 0
    }

    /// Strictly-less comparison on the mathematical values.
    pub fn lt(&self, other: &U256) -> (r: bool)
        ensures
            r <==> self@ < other@,
    {
        proof {
            if self.hi < other.hi {
                assert(self.hi * limb_base() + limb_base() <= other.hi * limb_base())
                    by (nonlinear_arith)
                    requires self.hi + 1 <= other.hi;
            }
            if other.hi < self.hi {
                assert(other.hi * limb_base() + limb_base() <= self.hi * limb_base())
                    by (nonlinear_arith)
                    requires other.hi + 1 <= self.hi;
            }
        }
        self.hi < other.hi || (self.hi == other.hi && self.lo < other.lo)
    }

    /// At-least comparison on the mathematical values.
    pub fn ge(&self, other: &U256) -> (r: bool)
        ensures
            r <==> self@ >= other@,
    {
        !self.lt(other)
    }

    /// Sum, or `None` when the result would not fit in 256 bits.
    pub fn checked_add(&self, other: &U256) -> (r: Option<U256>)
        ensures
            match r {
                Some(s) => s@ == self@ + other@ && self@ + other@ < u256_bound(),
                None => self@ + other@ >= u256_bound(),
            },
    {
        let (lo, carry): (u128, bool) = if self.lo <= u128::MAX - other.lo {
            (self.lo + other.lo, false)
        } else {
            ((self.lo - (u128::MAX - other.lo)) - 1, true)
        };
        let c: u128 = if carry {
            1
        } else {
            0
        };
        proof {
            assert(lo == self.lo + other.lo - c * limb_base());
        }
        if other.hi <= u128::MAX - c && self.hi <= u128::MAX - (other.hi + c) {
            let hi: u128 = self.hi + other.hi + c;
            proof {
                assert((self.hi + other.hi + c) * limb_base() + lo == self@ + other@)
                    by (nonlinear_arith)
                    requires lo == self.lo + other.lo - c * limb_base(),
                        self@ == self.hi * limb_base() + self.lo,
                        other@ == other.hi * limb_base() + other.lo;
                lemma_u256_bound(U256 { hi, lo });
            }
            Some(U256 { hi, lo })
        } else {
            proof {
                assert(self.hi + other.hi + c > u128::MAX);
                assert((self.hi + other.hi + c) * limb_base() >= (u128::MAX + 1) * limb_base())
                    by (nonlinear_arith)
                    requires self.hi + other.hi + c >= u128::MAX + 1;
                assert((self.hi + other.hi + c) * limb_base() + lo == self@ + other@)
                    by (nonlinear_arith)
                    requires lo == self.lo + other.lo - c * limb_base(),
                        self@ == self.hi * limb_base() + self.lo,
                        other@ == other.hi * limb_base() + other.lo;
            }
            None
        }
    }

    /// Difference, or `None` when `other` exceeds `self`.
    pub fn checked_sub(&self, other: &U256) -> (r: Option<U256>)
        ensures
            match r {
                Some(d) => d@ == self@ - other@,
                None => self@ < other@,
            },
    {
        let (lo, borrow): (u128, bool) = if self.lo >= other.lo {
            (self.lo - other.lo, false)
        } else {
            ((u128::MAX - (other.lo - self.lo)) + 1, true)
        };
        let b: u128 = if borrow {
            1
        } else {
            0
        };
        proof {
            assert(lo == self.lo - other.lo + b * limb_base());
        }
        if other.hi <= u128::MAX - b && self.hi >= other.hi + b {
            let hi: u128 = self.hi - (other.hi + b);
            proof {
                assert((self.hi - other.hi - b) * limb_base() + lo == self@ - other@)
                    by (nonlinear_arith)
                    requires lo == self.lo - other.lo + b * limb_base(),
                        self@ == self.hi * limb_base() + self.lo,
                        other@ == other.hi * limb_base() + other.lo;
            }
            Some(U256 { hi, lo })
        } else {
            proof {
                assert(self.hi < other.hi + b);
                assert(self.hi * limb_base() + limb_base() <= (other.hi + b) * limb_base())
                    by (nonlinear_arith)
                    requires self.hi + 1 <= other.hi + b;
            }
            None
        }
    }
}

} // verus!
