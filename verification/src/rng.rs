//! A small xorshift generator and the draws the random driver makes from it.

use vstd::prelude::*;

verus! {

/// Mixed into the clock reading that seeds the generator.
pub const SEED_MASK: u32 = 0xA3C5_9AC3;

/// One step of the 32-bit xorshift generator with shifts 13, 17 and 5.
pub open spec fn xorshift(x: u32) -> u32 {
    let a = x ^ (x << 13);
    let b = a ^ (a >> 17);
    b ^ (b << 5)
}

/// Whether the number `x`, read as the fraction `x / 2^32`, lies below
/// `percent` hundredths.
pub open spec fn below_percent(x: u32, percent: u32) -> bool {
    x * 100 < percent * 0x1_0000_0000
}

/// The number `x`, read as the fraction `x / 2^32`, of `span`, rounded down.
pub open spec fn share(span: int, x: u32) -> int {
    span * x / 0x1_0000_0000
}

/// What a draw from `a ..= b` gives and the state it leaves, from the
/// state `seed`: where the range is empty or a single number, `a` without
/// a step of the generator.
pub open spec fn drawn_range(seed: u32, a: i32, b: i32) -> (i32, u32) {
    if b <= a {
        (a, seed)
    } else {
        ((a + share(b - a + 1, xorshift(seed))) as i32, xorshift(seed))
    }
}

/// What a draw from `a ..= b` microseconds gives, from the state `seed`.
pub open spec fn drawn_span(seed: u32, a: u32, b: u32) -> (u32, u32) {
    ((a + share(b - a, xorshift(seed))) as u32, xorshift(seed))
}

/// What a draw that comes true `percent` times in a hundred gives, from
/// the state `seed`.
pub open spec fn drawn_chance(seed: u32, percent: u32) -> (bool, u32) {
    (below_percent(xorshift(seed), percent), xorshift(seed))
}

/// A 32-bit xorshift generator; the field is its state.
#[derive(Clone, Copy, PartialEq, Eq, Debug)]
pub struct TinyRng(pub u32);

impl TinyRng {
    /// A generator seeded from the sub-second nanoseconds of a clock reading.
    pub fn seeded(nanos: u32) -> (rng: TinyRng)
        ensures
            rng.0 == nanos ^ SEED_MASK,
    {
        TinyRng(nanos ^ SEED_MASK)
    }

    /// Steps the generator and returns its new state.
    pub fn next_u32(&mut self) -> (x: u32)
        ensures
            x == xorshift(old(self).0),
            final(self).0 == x,
    {
        let mut x = self.0;
        x = x ^ (x << 13);
        x = x ^ (x >> 17);
        x = x ^ (x << 5);
        self.0 = x;
        x
    }

    /// True `percent` times in a hundred.
    pub fn chance(&mut self, percent: u32) -> (hit: bool)
        ensures
            (hit, final(self).0) == drawn_chance(old(self).0, percent),
    {
        let x = self.next_u32();
        (x as u64) * 100 < (percent as u64) * 0x1_0000_0000
    }

    /// A number of microseconds from `a` up to `b`.
    pub fn range_u32(&mut self, a: u32, b: u32) -> (r: u32)
        requires
            a <= b,
        ensures
            (r, final(self).0) == drawn_span(old(self).0, a, b),
            a <= r <= b,
    {
        let x = self.next_u32();
        let span: u64 = (b - a) as u64;
        proof {
            lemma_share_bounds(span as int, x);
        }
        assert(span * x <= 0xffff_ffff * 0xffff_ffff) by (nonlinear_arith)
            requires
                0 <= span <= 0xffff_ffff,
                0 <= x <= 0xffff_ffff,
        ;
        let part: u64 = span * (x as u64) / 0x1_0000_0000;
        a + part as u32
    }

    /// A number from `a` to `b`, both included; `a` if `b` is not above it.
    pub fn range_i32(&mut self, a: i32, b: i32) -> (r: i32)
        ensures
            (r, final(self).0) == drawn_range(old(self).0, a, b),
            a <= r,
            a < b ==> r <= b,
    {
        if b <= a {
            a
        } else {
            let x = self.next_u32();
            let span: u64 = (b as i64 - a as i64 + 1) as u64;
            proof {
                lemma_share_bounds(span as int, x);
            }
            assert(span * x <= 0x1_0000_0000 * 0xffff_ffff) by (nonlinear_arith)
                requires
                    0 <= span <= 0x1_0000_0000,
                    0 <= x <= 0xffff_ffff,
            ;
            let part: u64 = span * (x as u64) / 0x1_0000_0000;
            (a as i64 + part as i64) as i32
        }
    }
}

/// A share of a span lies within it, and below it when the span is not empty.
pub proof fn lemma_share_bounds(span: int, x: u32)
    by (nonlinear_arith)
    requires
        span >= 0,
    ensures
        0 <= share(span, x) <= span,
        span > 0 ==> share(span, x) < span,
{
    assert(span * x >= 0);
    assert(span * x <= span * 0xffff_ffff);
    if span > 0 {
        assert(span * x < span * 0x1_0000_0000);
    }
}

} // verus!
