//! Diagonal size of a display, in tenths of an inch, from its size in millimetres.

use vstd::prelude::*;

verus! {

/// `r` is the integer square root of `n`, rounded down.
pub open spec fn is_floor_sqrt(r: int, n: int) -> bool {
    0 <= r && r * r <= n && n < (r + 1) * (r + 1)
}

/// The integer square root of `n`, rounded down.
pub open spec fn floor_sqrt(n: int) -> int {
    choose|r: int| is_floor_sqrt(r, n)
}

/// Diagonal in tenths of an inch, to the nearest tenth:
/// `round(10 * sqrt(w² + h²) / 25.4)`, that is `round(100 * sqrt(w² + h²) / 254)`,
/// computed from `f = floor(100 * sqrt(w² + h²))` as `(f + 127) / 254`
/// (see `lemma_diagonal_nearest_tenth`).
pub open spec fn diagonal_tenths(width_mm: int, height_mm: int) -> int {
    (floor_sqrt(10000 * (width_mm * width_mm + height_mm * height_mm)) + 127) / 254
}

proof fn lemma_floor_sqrt_unique(r: int, n: int)
    requires
        is_floor_sqrt(r, n),
    ensures
        floor_sqrt(n) == r,
{
    let q = floor_sqrt(n);
    assert(is_floor_sqrt(q, n));
    if q < r {
        assert((q + 1) * (q + 1) <= r * r) by (nonlinear_arith)
            requires
                0 <= q,
                q + 1 <= r,
        ;
    } else if r < q {
        assert((r + 1) * (r + 1) <= q * q) by (nonlinear_arith)
            requires
                0 <= r,
                r + 1 <= q,
        ;
    }
}

proof fn lemma_floor_sqrt_exists(n: int)
    requires
        0 <= n,
    ensures
        is_floor_sqrt(floor_sqrt(n), n),
    decreases n,
{
    if n == 0 {
        assert(is_floor_sqrt(0, 0));
    } else {
        lemma_floor_sqrt_exists(n - 1);
        let r = floor_sqrt(n - 1);
        if (r + 1) * (r + 1) <= n {
            assert((r + 1) * (r + 1) == n);
            assert(n < (r + 2) * (r + 2)) by (nonlinear_arith)
                requires
                    (r + 1) * (r + 1) == n,
                    0 <= r,
            ;
            assert(is_floor_sqrt(r + 1, n));
        } else {
            assert(is_floor_sqrt(r, n));
        }
    }
}

/// The diagonal is rounded to the nearest tenth of an inch:
/// `|100 * sqrt(w² + h²) - 254 * t| < 127`, that is
/// `|sqrt(w² + h²) / 25.4 - t / 10| < 1/20`, stated without square roots.
pub proof fn lemma_diagonal_nearest_tenth(width_mm: int, height_mm: int)
    requires
        width_mm > 0,
        height_mm > 0,
    ensures
        ({
            let t = diagonal_tenths(width_mm, height_mm);
            let n = 10000 * (width_mm * width_mm + height_mm * height_mm);
            &&& t >= 0
            &&& (254 * t - 127) * (254 * t - 127) <= n
            &&& n < (254 * t + 127) * (254 * t + 127)
        }),
{
    let s = width_mm * width_mm + height_mm * height_mm;
    assert(s >= 2) by (nonlinear_arith)
        requires
            width_mm > 0,
            height_mm > 0,
            s == width_mm * width_mm + height_mm * height_mm,
    ;
    let n = 10000 * s;
    lemma_floor_sqrt_exists(n);
    let f = floor_sqrt(n);
    let t = (f + 127) / 254;
    assert(t == diagonal_tenths(width_mm, height_mm));
    assert(254 * t <= f + 127 < 254 * t + 254);
    if 254 * t >= 127 {
        assert((254 * t - 127) * (254 * t - 127) <= f * f) by (nonlinear_arith)
            requires
                0 <= 254 * t - 127 <= f,
        ;
        assert(f * f <= n);
    } else {
        assert(t == 0);
        assert((254 * t - 127) * (254 * t - 127) == 16129) by (nonlinear_arith)
            requires
                t == 0,
        ;
    }
    assert((f + 1) * (f + 1) <= (254 * t + 127) * (254 * t + 127)) by (nonlinear_arith)
        requires
            0 <= f + 1 <= 254 * t + 127,
    ;
    assert(n < (f + 1) * (f + 1));
    assert(t >= 0);
}

/// Integer square root of `n`, rounded down, by bisection.
fn floor_sqrt_u128(n: u128) -> (r: u128)
    requires
        n < 0x1_0000_0000_0000_0000_0000,
    ensures
        is_floor_sqrt(r as int, n as int),
{
    let mut lo: u128 = 0;
    let mut hi: u128 = 0x100_0000_0000;
    assert(hi * hi == 0x1_0000_0000_0000_0000_0000);
    while lo + 1 < hi
        invariant
            lo < hi <= 0x100_0000_0000,
            lo * lo <= n,
            n < hi * hi,
        decreases hi - lo,
    {
        let mid: u128 = lo + (hi - lo) / 2;
        assert(mid * mid <= 0x100_0000_0000 * 0x100_0000_0000) by (nonlinear_arith)
            requires
                mid <= 0x100_0000_0000,
        ;
        if mid * mid <= n {
            lo = mid;
        } else {
            hi = mid;
        }
    }
    assert(hi == lo + 1);
    lo
}

/// The diagonal of a display of the given size, in tenths of an inch.
pub fn diagonal_tenths_of(width_mm: i32, height_mm: i32) -> (t: u64)
    requires
        width_mm > 0,
        height_mm > 0,
    ensures
        t as int == diagonal_tenths(width_mm as int, height_mm as int),
{
    let w = width_mm as u128;
    let h = height_mm as u128;
    assert(w * w < 0x4000_0000_0000_0000) by (nonlinear_arith)
        requires
            w < 0x8000_0000,
    ;
    assert(h * h < 0x4000_0000_0000_0000) by (nonlinear_arith)
        requires
            h < 0x8000_0000,
    ;
    let sum = w * w + h * h;
    let f = floor_sqrt_u128(10000 * sum);
    proof {
        lemma_floor_sqrt_unique(f as int, 10000 * (sum as int));
    }
    assert(f * f <= 10000 * sum);
    assert(f < 0x100_0000_0000) by (nonlinear_arith)
        requires
            f * f <= 10000 * sum,
            sum < 0x8000_0000_0000_0000,
    ;
    ((f + 127) / 254) as u64
}

} // verus!
