//! Fixed-point scales shared by the whole crate, an exact integer square
//! root, and the quantizer that turns a fixed-point density into a byte.

use vstd::prelude::*;

verus! {

/// Denominator of unit-cube coordinates: a coordinate `c` stands for
/// `c / 65536` of the cube edge.
pub const COORD_SCALE: u32 = 65536;

/// Denominator of frequencies: a frequency `f` stands for `f / 256` cells
/// per cube edge.
pub const FREQ_SCALE: u32 = 256;

/// Largest supported fixed-point frequency (10 cells per edge).
pub const FREQ_FP_MAX: u32 = 2560;

/// Denominator of densities: `COORD_SCALE * FREQ_SCALE`. A density `d`
/// stands for `d / 16777216`, so the full range `[0, 1]` of the field is
/// `[0, DENSITY_SCALE]`.
pub const DENSITY_SCALE: u32 = 16777216;

/// `DENSITY_SCALE * DENSITY_SCALE`: squared distances at or beyond this
/// threshold contribute zero density.
pub const DENSITY_SCALE_SQ: u64 = 281474976710656;

/// Half of `DENSITY_SCALE`, the rounding bias of the quantizer.
pub const HALF_DENSITY_SCALE: u32 = 8388608;

/// The integer square root, rounded down: the unique `s >= 0` with
/// `s * s <= n < (s + 1) * (s + 1)`.
pub open spec fn sqrt_floor(n: int) -> int
    decreases n,
{
    if n <= 0 {
        0
    } else {
        let s = sqrt_floor(n - 1);
        if (s + 1) * (s + 1) <= n {
            s + 1
        } else {
            s
        }
    }
}

pub proof fn lemma_sqrt_floor_bounds(n: int)
    requires
        n >= 0,
    ensures
        sqrt_floor(n) >= 0,
        sqrt_floor(n) * sqrt_floor(n) <= n,
        n < (sqrt_floor(n) + 1) * (sqrt_floor(n) + 1),
    decreases n,
{
    if n == 0 {
        assert(sqrt_floor(0) == 0);
    } else {
        lemma_sqrt_floor_bounds(n - 1);
        let s = sqrt_floor(n - 1);
        if (s + 1) * (s + 1) <= n {
            assert(sqrt_floor(n) == s + 1);
            assert(n <= (s + 1) * (s + 1));
            assert((s + 2) * (s + 2) > (s + 1) * (s + 1)) by (nonlinear_arith)
                requires
                    s >= 0,
            ;
        } else {
            assert(sqrt_floor(n) == s);
        }
    }
}

pub proof fn lemma_sqrt_floor_unique(n: int, r: int)
    requires
        n >= 0,
        r >= 0,
        r * r <= n,
        n < (r + 1) * (r + 1),
    ensures
        sqrt_floor(n) == r,
{
    lemma_sqrt_floor_bounds(n);
    let s = sqrt_floor(n);
    if s < r {
        assert((s + 1) * (s + 1) <= r * r) by (nonlinear_arith)
            requires
                0 <= s + 1 <= r,
        ;
    }
    if r < s {
        assert((r + 1) * (r + 1) <= s * s) by (nonlinear_arith)
            requires
                0 <= r + 1 <= s,
        ;
    }
}

/// Exact integer square root by binary search.
pub fn isqrt(n: u64) -> (r: u64)
    ensures
        r == sqrt_floor(n as int),
{
    let mut lo: u64 = 0;
    let mut hi: u64 = 4294967296;
    assert((4294967296 as int) * (4294967296 as int) > u64::MAX as int) by (nonlinear_arith);
    while hi - lo > 1
        invariant
            lo < hi,
            hi <= 4294967296,
            (lo as int) * (lo as int) <= n as int,
            (n as int) < (hi as int) * (hi as int),
        decreases hi - lo,
    {
        let mid: u64 = lo + (hi - lo) / 2;
        assert((mid as int) * (mid as int) < (4294967296 as int) * (4294967296 as int))
            by (nonlinear_arith)
            requires
                0 <= mid < 4294967296,
        ;
        if mid * mid <= n {
            lo = mid;
        } else {
            hi = mid;
        }
    }
    proof {
        lemma_sqrt_floor_unique(n as int, lo as int);
    }
    lo
}

/// Maps a density in `[0, DENSITY_SCALE]` to a byte by rounding
/// `d * 255 / DENSITY_SCALE` to the nearest integer.
pub open spec fn quantize_spec(d: int) -> int {
    (d * 255 + HALF_DENSITY_SCALE as int) / (DENSITY_SCALE as int)
}

pub fn quantize(d: u32) -> (r: u8)
    requires
        d <= DENSITY_SCALE,
    ensures
        r as int == quantize_spec(d as int),
{
    let t: u64 = (d as u64) * 255 + (HALF_DENSITY_SCALE as u64);
    let q: u64 = t / (DENSITY_SCALE as u64);
    assert(q <= 255);
    q as u8
}

} // verus!
