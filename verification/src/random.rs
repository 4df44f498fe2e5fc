use vstd::prelude::*;

use rand::RngExt;

use crate::config::FRACTION_SCALE;
use vstd::arithmetic::div_mod::{lemma_div_pos_is_pos, lemma_multiply_divide_lt};

verus! {

// The simulation consumes randomness as uniform fractions of the unit
// interval, in thousandths: plain integers in `[0, FRACTION_SCALE)`.  A tick
// receives its draws as values, so a run is reproducible under any source.

/// Relies on rand's `RngExt::random_range` on the thread-local generator:
/// the sample lies in the requested range, here `0..1000`; the range is not
/// empty, so the call does not panic.
#[verifier::external_body]
pub(crate) fn draw_fraction() -> (r: u32)
    ensures
        0 <= r < FRACTION_SCALE,
{
    rand::rng().random_range(0..1000u32)
}

/// `lo` shifted by `frac` thousandths of the span `[lo, hi]`, rounded down:
/// the integer image of drawing a uniform fraction onto a range.
pub open spec fn lerp_frac(lo: int, hi: int, frac: int) -> int {
    lo + ((hi - lo) * frac) / (FRACTION_SCALE as int)
}

/// A fraction maps into the range it is drawn over, and strictly below the
/// upper bound whenever the range is not a single point.
pub proof fn lemma_lerp_frac_bounds(lo: int, hi: int, frac: int)
    requires
        lo <= hi,
        0 <= frac < FRACTION_SCALE,
    ensures
        lo <= lerp_frac(lo, hi, frac) <= hi,
        lo < hi ==> lerp_frac(lo, hi, frac) < hi,
{
    assert(0 <= (hi - lo) * frac) by (nonlinear_arith)
        requires
            lo <= hi,
            0 <= frac,
    ;
    lemma_div_pos_is_pos((hi - lo) * frac, FRACTION_SCALE as int);
    if lo < hi {
        assert((hi - lo) * frac < (FRACTION_SCALE as int) * (hi - lo)) by (nonlinear_arith)
            requires
                lo < hi,
                0 <= frac < FRACTION_SCALE,
        ;
        lemma_multiply_divide_lt((hi - lo) * frac, FRACTION_SCALE as int, hi - lo);
    } else {
        assert((hi - lo) * frac == 0) by (nonlinear_arith)
            requires
                lo == hi,
        ;
    }
}

/// Maps the fraction `frac` onto the range `[lo, hi]`; the result is `lo`
/// exactly when `frac` is zero or the range is a single point.
pub fn uniform_from_fraction(lo: i64, hi: i64, frac: u32) -> (r: i64)
    requires
        lo <= hi,
        -4_000_000_000_000 <= lo,
        hi <= 4_000_000_000_000,
        frac < FRACTION_SCALE,
    ensures
        r == lerp_frac(lo as int, hi as int, frac as int),
        lo <= r <= hi,
        lo < hi ==> r < hi,
{
    let span = hi - lo;
    proof {
        assert(0 <= span * (frac as i64) <= span * 1000) by (nonlinear_arith)
            requires
                span >= 0,
                0 <= frac < 1000,
        ;
        lemma_lerp_frac_bounds(lo as int, hi as int, frac as int);
    }
    let scaled = span * (frac as i64);
    lo + scaled / FRACTION_SCALE
}

/// The three uniform draws one obstacle spawn consumes, in the order the
/// spawner uses them.
#[derive(Clone, Copy, PartialEq, Eq, Structural, Debug)]
pub struct SpawnDraws {
    /// Picks the next spawn delay between the configured minimum and maximum.
    pub duration: u32,
    /// Picks how far the gap center walks from its previous position.
    pub center: u32,
    /// Picks the distance between the two obstacle bodies.
    pub gap: u32,
}

impl SpawnDraws {
    pub open spec fn wf(self) -> bool {
        &&& self.duration < FRACTION_SCALE
        &&& self.center < FRACTION_SCALE
        &&& self.gap < FRACTION_SCALE
    }

    /// Draws created from the thread-local random source.
    pub fn random() -> (d: SpawnDraws)
        ensures
            d.wf(),
    {
        SpawnDraws { duration: draw_fraction(), center: draw_fraction(), gap: draw_fraction() }
    }

    /// The draws a source that always returns zero would give: every choice
    /// lands on its lower bound.
    pub fn zero() -> (d: SpawnDraws)
        ensures
            d.wf(),
            d == (SpawnDraws { duration: 0u32, center: 0u32, gap: 0u32 }),
    {
        SpawnDraws { duration: 0, center: 0, gap: 0 }
    }
}

} // verus!
