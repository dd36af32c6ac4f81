//! Sums of many 128-bit amounts, kept without overflow.
use vstd::prelude::*;

verus! {

/// 2 to the 128th.
pub open spec fn limb() -> int {
    u128::MAX as int + 1
}

/// Totals whose high limbs differ are ordered by them.
proof fn lemma_limbs_order(a_hi: int, a_lo: int, b_hi: int, b_lo: int)
    requires
        0 <= a_lo < limb(),
        0 <= b_lo < limb(),
        a_hi < b_hi,
    ensures
        a_hi * limb() + a_lo < b_hi * limb() + b_lo,
{
    let l = limb();
    assert(b_hi * l >= (a_hi + 1) * l) by (nonlinear_arith)
        requires
            b_hi >= a_hi + 1,
            l > 0,
    ;
    assert((a_hi + 1) * l == a_hi * l + l) by (nonlinear_arith);
}

/// A running total held as two 128-bit limbs.
#[derive(Clone, Copy, Debug)]
pub struct WideSum {
    pub hi: u128,
    pub lo: u128,
}

impl WideSum {
    pub open spec fn value(&self) -> int {
        self.hi * limb() + self.lo
    }

    pub fn zero() -> (r: WideSum)
        ensures
            r.value() == 0,
            r.hi == 0,
    {
        WideSum { hi: 0, lo: 0 }
    }

    /// Adds `v` to the total.
    pub fn add(&mut self, v: u128)
        requires
            old(self).hi < u128::MAX,
        ensures
            final(self).value() == old(self).value() + v,
            final(self).hi <= old(self).hi + 1,
    {
        if v <= u128::MAX - self.lo {
            self.lo = self.lo + v;
        } else {
            let h = self.hi;
            self.lo = v - (u128::MAX - self.lo) - 1;
            self.hi = self.hi + 1;
            assert((h + 1) * limb() == h * limb() + limb()) by (nonlinear_arith);
        }
    }

    /// Whether the total is at least `other`.
    pub fn at_least(&self, other: &WideSum) -> (r: bool)
        ensures
            r == (self.value() >= other.value()),
    {
        proof {
            if self.hi < other.hi {
                lemma_limbs_order(self.hi as int, self.lo as int, other.hi as int, other.lo as int);
            } else if self.hi > other.hi {
                lemma_limbs_order(other.hi as int, other.lo as int, self.hi as int, self.lo as int);
            }
        }
        if self.hi != other.hi {
            self.hi > other.hi
        } else {
            self.lo >= other.lo
        }
    }

    /// Whether the total equals `v`.
    pub fn equals(&self, v: u128) -> (r: bool)
        ensures
            r == (self.value() == v),
    {
        proof {
            if self.hi > 0 {
                lemma_limbs_order(0, v as int, self.hi as int, self.lo as int);
            } else {
                let h = self.hi as int;
                assert(h * limb() == 0) by (nonlinear_arith)
                    requires
                        h == 0,
                ;
            }
        }
        self.hi == 0 && self.lo == v
    }
}

} // verus!
