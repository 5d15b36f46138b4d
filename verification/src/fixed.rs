//! Exact fixed-point arithmetic for the economy.
//!
//! Every quantity of the simulation (a resource amount, a price, a rate, a
//! multiplier) is a non-negative number of millionths, held in a `u128`.
//! Results are rounded down to the next millionth and stop at `FIXED_MAX`,
//! so no operation overflows and none leaves a quantity negative.

use vstd::prelude::*;

verus! {

/// A non-negative quantity in millionths of a unit.
pub type Fixed = u128;

/// The raw value of one whole unit, and of the multiplier 1.0.
pub const SCALE: u128 = 1_000_000;

/// The largest value a computed quantity takes: sums and products stop here.
pub const FIXED_MAX: u128 = 1_000_000_000_000_000_000_000_000_000_000;

/// A mathematical quantity brought into the range `0 ..= FIXED_MAX`.
pub open spec fn clamp(x: int) -> Fixed {
    if x < 0 {
        0
    } else if x > FIXED_MAX as int {
        FIXED_MAX
    } else {
        x as Fixed
    }
}

/// What is held after `b` is credited to `a`: their sum, stopping at the
/// ceiling. A credit never lowers what is held: a quantity already above
/// the ceiling stays as it is.
pub open spec fn spec_add(a: Fixed, b: Fixed) -> Fixed {
    if a + b <= FIXED_MAX {
        (a + b) as Fixed
    } else if a > FIXED_MAX {
        a
    } else {
        FIXED_MAX
    }
}

/// What is left of `a` after taking `b` away; nothing where `b` exceeds `a`.
pub open spec fn spec_sub(a: Fixed, b: Fixed) -> Fixed {
    if a > b {
        (a - b) as Fixed
    } else {
        0
    }
}

/// The product of two quantities, rounded down to a millionth.
pub open spec fn spec_mul(a: Fixed, b: Fixed) -> Fixed {
    clamp((a as int * b as int) / (SCALE as int))
}

/// A quantity taken a whole number of times.
pub open spec fn spec_times(a: Fixed, n: int) -> Fixed {
    clamp(a as int * n)
}

/// The quantity that stands for `n` whole units.
pub open spec fn spec_units(n: int) -> Fixed {
    clamp(n * (SCALE as int))
}

/// `r` is the integer square root of `x`, rounded down.
pub open spec fn is_sqrt_floor(x: int, r: int) -> bool {
    0 <= r && r * r <= x && x < (r + 1) * (r + 1)
}

/// The integer square root of `x`, rounded down.
pub open spec fn spec_isqrt(x: int) -> int {
    choose|r: int| is_sqrt_floor(x, r)
}

/// A number has at most one rounded-down square root.
pub proof fn lemma_sqrt_floor_unique(x: int, a: int, b: int)
    requires
        is_sqrt_floor(x, a),
        is_sqrt_floor(x, b),
    ensures
        a == b,
{
    if a < b {
        assert((a + 1) * (a + 1) <= b * b) by (nonlinear_arith)
            requires
                0 <= a,
                a + 1 <= b,
        ;
    } else if b < a {
        assert((b + 1) * (b + 1) <= a * a) by (nonlinear_arith)
            requires
                0 <= b,
                b + 1 <= a,
        ;
    }
}

/// Every non-negative number has a rounded-down square root.
pub proof fn lemma_sqrt_floor_exists(x: int)
    requires
        0 <= x,
    ensures
        exists|r: int| is_sqrt_floor(x, r),
        is_sqrt_floor(x, spec_isqrt(x)),
    decreases x,
{
    if x == 0 {
        assert(is_sqrt_floor(0, 0));
    } else {
        lemma_sqrt_floor_exists(x - 1);
        let r = spec_isqrt(x - 1);
        if (r + 1) * (r + 1) <= x {
            assert(x < (r + 2) * (r + 2)) by (nonlinear_arith)
                requires
                    0 <= r,
                    x - 1 < (r + 1) * (r + 1),
            ;
            assert(is_sqrt_floor(x, r + 1));
        } else {
            assert(is_sqrt_floor(x, r));
        }
    }
}

/// A product that does not fit in 128 bits is past the ceiling once scaled.
proof fn lemma_overflow_is_past_ceiling(a: int, b: int)
    requires
        a * b > u128::MAX as int,
    ensures
        (a * b) / (SCALE as int) > FIXED_MAX as int,
{
    let p = a * b;
    assert(p / 1_000_000 > 1_000_000_000_000_000_000_000_000_000_000) by {
        assert(p >= 0x1_0000_0000_0000_0000_0000_0000_0000_0000);
    }
}

/// The quantity of `n` whole units.
pub fn from_units(n: u64) -> (r: Fixed)
    ensures
        r == spec_units(n as int),
        r <= FIXED_MAX,
{
    (n as u128) * SCALE
}

/// Credits `b` to `a`; the sum stops at `FIXED_MAX`, and what is held is
/// never lowered.
pub fn fixed_add(a: Fixed, b: Fixed) -> (r: Fixed)
    ensures
        r == spec_add(a, b),
        r >= a,
        a <= FIXED_MAX ==> r <= FIXED_MAX,
{
    let s: u128 = a.saturating_add(b);
    if s <= FIXED_MAX {
        s
    } else if a > FIXED_MAX {
        a
    } else {
        FIXED_MAX
    }
}

/// Takes `b` away from `a`; the difference stops at zero.
pub fn fixed_sub(a: Fixed, b: Fixed) -> (r: Fixed)
    ensures
        r == spec_sub(a, b),
        r <= a,
{
    a.saturating_sub(b)
}

/// Multiplies two quantities, rounding down; the product stops at `FIXED_MAX`.
pub fn fixed_mul(a: Fixed, b: Fixed) -> (r: Fixed)
    ensures
        r == spec_mul(a, b),
        r <= FIXED_MAX,
{
    match a.checked_mul(b) {
        Some(p) => {
            let q: u128 = p / SCALE;
            if q > FIXED_MAX {
                FIXED_MAX
            } else {
                q
            }
        },
        None => {
            proof {
                lemma_overflow_is_past_ceiling(a as int, b as int);
            }
            FIXED_MAX
        },
    }
}

/// Takes a quantity `n` times; the result stops at `FIXED_MAX`.
pub fn fixed_times(a: Fixed, n: u32) -> (r: Fixed)
    ensures
        r == spec_times(a, n as int),
        r <= FIXED_MAX,
{
    match a.checked_mul(n as u128) {
        Some(p) => {
            if p > FIXED_MAX {
                FIXED_MAX
            } else {
                p
            }
        },
        None => FIXED_MAX,
    }
}

/// The integer square root of `x`, rounded down.
pub fn isqrt(x: u128) -> (r: u128)
    ensures
        is_sqrt_floor(x as int, r as int),
        r as int == spec_isqrt(x as int),
{
    let mut lo: u128 = 0;
    let mut hi: u128 = 0x1_0000_0000_0000_0000;
    assert(hi * hi > x) by (nonlinear_arith)
        requires
            hi == 0x1_0000_0000_0000_0000,
            x <= u128::MAX,
    ;
    while hi - lo > 1
        invariant
            lo < hi <= 0x1_0000_0000_0000_0000,
            lo * lo <= x,
            x < hi * hi,
        decreases hi - lo,
    {
        let mid: u128 = lo + (hi - lo) / 2;
        assert(mid * mid <= u128::MAX) by (nonlinear_arith)
            requires
                mid < 0x1_0000_0000_0000_0000,
        ;
        if mid * mid <= x {
            lo = mid;
        } else {
            hi = mid;
        }
    }
    proof {
        assert(hi == lo + 1);
        assert(is_sqrt_floor(x as int, lo as int));
        lemma_sqrt_floor_unique(x as int, lo as int, spec_isqrt(x as int));
    }
    lo
}

/// Crediting nothing and debiting nothing change nothing, whatever is held.
pub proof fn lemma_nothing_changes_nothing(a: Fixed)
    ensures
        spec_add(a, 0) == a,
        spec_sub(a, 0) == a,
{
}

/// Sums are monotone: a larger addend never gives a smaller sum.
pub proof fn lemma_add_monotone(a: Fixed, b: Fixed, c: Fixed)
    requires
        b <= c,
    ensures
        spec_add(a, b) <= spec_add(a, c),
        spec_add(b, a) <= spec_add(c, a),
{
}

/// Scaling by a multiplier of at least 1.0 never shrinks a quantity in range.
pub proof fn lemma_mul_grows(a: Fixed, m: Fixed)
    requires
        a <= FIXED_MAX,
        m >= SCALE,
    ensures
        spec_mul(a, m) >= a,
{
    assert((a as int * m as int) / 1_000_000 >= a) by (nonlinear_arith)
        requires
            0 <= a,
            m >= 1_000_000,
    ;
}

/// Scaling by a multiplier of at most 1.0 never grows a quantity.
pub proof fn lemma_mul_shrinks(a: Fixed, m: Fixed)
    requires
        m <= SCALE,
    ensures
        spec_mul(a, m) <= a,
{
    assert((a as int * m as int) / 1_000_000 <= a) by (nonlinear_arith)
        requires
            0 <= a,
            0 <= m <= 1_000_000,
    ;
}

/// Products are monotone in the scaled quantity.
pub proof fn lemma_mul_monotone(a: Fixed, b: Fixed, m: Fixed)
    requires
        a <= b,
    ensures
        spec_mul(a, m) <= spec_mul(b, m),
        spec_mul(m, a) <= spec_mul(m, b),
{
    assert((a as int * m as int) / 1_000_000 <= (b as int * m as int) / 1_000_000)
        by (nonlinear_arith)
        requires
            0 <= a <= b,
            0 <= m,
    ;
    assert((m as int * a as int) / 1_000_000 <= (m as int * b as int) / 1_000_000)
        by (nonlinear_arith)
        requires
            0 <= a <= b,
            0 <= m,
    ;
}

/// Scaling by exactly 1.0 changes nothing below the ceiling.
pub proof fn lemma_mul_one(a: Fixed)
    requires
        a <= FIXED_MAX,
    ensures
        spec_mul(a, SCALE) == a,
        spec_mul(SCALE, a) == a,
{
    assert((a as int * 1_000_000) / 1_000_000 == a) by (nonlinear_arith);
    assert((1_000_000 * a as int) / 1_000_000 == a) by (nonlinear_arith);
}

} // verus!
