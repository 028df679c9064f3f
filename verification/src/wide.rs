//! Products that do not fit 128 bits.
//!
//! The gesture decisions compare products of three factors, two of them
//! squared lengths of up to 66 bits. A [`Wide`] holds such a product exactly,
//! in two limbs.

use vstd::prelude::*;
use crate::fixed::lemma_product_bound;

verus! {

/// A non-negative integer of up to 192 bits: `hi * 2^64 + lo`.
#[derive(Clone, Copy, Debug)]
pub struct Wide {
    pub hi: u128,
    pub lo: u128,
}

impl Wide {
    /// The number that the two limbs stand for.
    pub open spec fn value(self) -> int {
        self.hi * 0x1_0000_0000_0000_0000 + self.lo
    }

    /// Whether the low limb is below `2^64`, so that a number has one form
    /// only.
    pub open spec fn normal(self) -> bool {
        self.lo < 0x1_0000_0000_0000_0000
    }

    /// Whether `self` is greater than `other`.
    pub fn exceeds(self, other: Wide) -> (more: bool)
        requires
            self.normal(),
            other.normal(),
        ensures
            more == (self.value() > other.value()),
    {
        self.hi > other.hi || (self.hi == other.hi && self.lo > other.lo)
    }
}

/// The product `k * a * b`, exactly, for a small `k` and two factors of up
/// to 66 bits.
pub fn scaled_product(k: u128, a: u128, b: u128) -> (w: Wide)
    requires
        k < 0x1_0000_0000,
        a < 0x4_0000_0000_0000_0000,
        b < 0x4_0000_0000_0000_0000,
    ensures
        w.normal(),
        w.value() == k * (a * b),
{
    let a1: u128 = a / 0x2_0000_0000;
    let a0: u128 = a % 0x2_0000_0000;
    let b1: u128 = b / 0x2_0000_0000;
    let b0: u128 = b % 0x2_0000_0000;
    let ghost limb: int = 0x2_0000_0000;
    proof {
        lemma_product_bound(a1 as int, b1 as int, limb, limb);
        lemma_product_bound(a1 as int, b0 as int, limb, limb);
        lemma_product_bound(a0 as int, b1 as int, limb, limb);
        lemma_product_bound(a0 as int, b0 as int, limb, limb);
        assert(limb * limb == 0x4_0000_0000_0000_0000);
    }
    let top: u128 = a1 * b1;
    let mid: u128 = a1 * b0 + a0 * b1;
    let low_part: u128 = a0 * b0;
    proof {
        assert(a * b == top * (limb * limb) + mid * limb + low_part) by (nonlinear_arith)
            requires
                a == a1 * limb + a0,
                b == b1 * limb + b0,
                top == a1 * b1,
                mid == a1 * b0 + a0 * b1,
                low_part == a0 * b0,
        ;
        lemma_product_bound(k as int, top as int, 0x1_0000_0000, 0x4_0000_0000_0000_0000);
        lemma_product_bound(k as int, mid as int, 0x1_0000_0000, 0x8_0000_0000_0000_0000);
        lemma_product_bound(k as int, low_part as int, 0x1_0000_0000, 0x4_0000_0000_0000_0000);
    }
    let top_scaled: u128 = k * top;
    let mid_scaled: u128 = k * mid;
    let low_scaled: u128 = k * low_part;
    proof {
        assert(k * (a * b) == top_scaled * 0x4_0000_0000_0000_0000 + mid_scaled * 0x2_0000_0000 + low_scaled)
            by (nonlinear_arith)
            requires
                a * b == top * (limb * limb) + mid * limb + low_part,
                limb == 0x2_0000_0000,
                top_scaled == k * top,
                mid_scaled == k * mid,
                low_scaled == k * low_part,
        ;
    }
    let low: u128 = (mid_scaled % 0x8000_0000) * 0x2_0000_0000 + low_scaled % 0x1_0000_0000_0000_0000;
    let high: u128 = top_scaled * 4 + mid_scaled / 0x8000_0000 + low_scaled / 0x1_0000_0000_0000_0000;
    Wide { hi: high + low / 0x1_0000_0000_0000_0000, lo: low % 0x1_0000_0000_0000_0000 }
}

} // verus!
