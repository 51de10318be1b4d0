//! Deterministic feature-point generation: a seeded ChaCha8 word stream,
//! mapped into fixed-point coordinates inside the unit cube.

use vstd::prelude::*;

use rand::{RngCore, SeedableRng};
use rand_chacha::ChaCha8Rng;

use crate::math::COORD_SCALE;

verus! {

/// Largest feature-point count whose word demand `3 * count` still fits in
/// 32 bits, so that it fits a `usize` on every supported target.
pub const FEATURE_COUNT_LIMIT: u32 = 1431655765;

/// A feature point inside the unit cube; each coordinate is a fixed-point
/// fraction of the edge, in `[0, COORD_SCALE)`.
#[derive(Clone, Copy, Debug, PartialEq, Eq, Structural)]
pub struct Point {
    pub x: u32,
    pub y: u32,
    pub z: u32,
}

pub open spec fn point_wf(p: Point) -> bool {
    p.x < COORD_SCALE && p.y < COORD_SCALE && p.z < COORD_SCALE
}

/// The `i`-th 32-bit word of the ChaCha8 stream seeded from `seed`.
pub uninterp spec fn chacha_word(seed: u64, i: int) -> u32;

/// Relies on rand_chacha's `ChaCha8Rng`: `seed_from_u64` followed by repeated
/// `next_u32` yields a key stream that is a pure function of the seed,
/// reproducible across runs and platforms.
#[verifier::external_body]
fn chacha_stream(seed: u64, n: usize) -> (r: Vec<u32>)
    ensures
        r@.len() == n,
        forall|i: int| 0 <= i < n ==> r@[i] == chacha_word(seed, i),
{
    let mut rng = ChaCha8Rng::seed_from_u64(seed);
    let mut words = Vec::with_capacity(n);
    for _ in 0..n {
        words.push(rng.next_u32());
    }
    words
}

/// A word of the stream reduced to a unit-cube coordinate.
pub open spec fn coord_of_word(w: u32) -> u32 {
    (w as int % COORD_SCALE as int) as u32
}

/// The feature-point set derived from `(seed, count)`: `count` points whose
/// coordinates are consecutive words of the ChaCha8 stream for `seed`,
/// reduced into `[0, COORD_SCALE)`.
pub open spec fn gen_points(seed: u32, count: u32) -> Seq<Point> {
    Seq::new(
        count as nat,
        |i: int|
            (Point {
                x: coord_of_word(chacha_word(seed as u64, 3 * i)),
                y: coord_of_word(chacha_word(seed as u64, 3 * i + 1)),
                z: coord_of_word(chacha_word(seed as u64, 3 * i + 2)),
            }),
    )
}

/// Draws `count` feature points from the ChaCha8 stream seeded by `seed`.
/// The result is pinned to `gen_points`, a function of `(seed, count)` alone.
pub fn generate_feature_points(seed: u32, count: u32) -> (r: Vec<Point>)
    requires
        count <= FEATURE_COUNT_LIMIT,
    ensures
        r@ == gen_points(seed, count),
        r@.len() == count,
        forall|i: int| 0 <= i < r@.len() ==> point_wf(#[trigger] r@[i]),
{
    let n: usize = (count as usize) * 3;
    let words = chacha_stream(seed as u64, n);
    let mut pts: Vec<Point> = Vec::new();
    let mut k: usize = 0;
    while k < count as usize
        invariant
            k <= count,
            n == 3 * count,
            words@.len() == n,
            forall|i: int| 0 <= i < n ==> words@[i] == chacha_word(seed as u64, i),
            pts@.len() == k,
            forall|i: int| 0 <= i < k ==> pts@[i] == gen_points(seed, count)[i],
        decreases count as int - k,
    {
        let w0 = words[3 * k];
        let w1 = words[3 * k + 1];
        let w2 = words[3 * k + 2];
        pts.push(Point { x: w0 % COORD_SCALE, y: w1 % COORD_SCALE, z: w2 % COORD_SCALE });
        k = k + 1;
    }
    proof {
        assert(pts@ =~= gen_points(seed, count));
        assert forall|i: int| 0 <= i < pts@.len() implies point_wf(#[trigger] pts@[i]) by {
            assert(pts@[i] == gen_points(seed, count)[i]);
        }
    }
    pts
}

/// Determinism of feature-point generation: two sets produced from the same
/// `(seed, count)` are identical.
pub proof fn lemma_feature_points_deterministic(seed: u32, count: u32, a: Seq<Point>, b: Seq<Point>)
    requires
        a == gen_points(seed, count),
        b == gen_points(seed, count),
    ensures
        a == b,
{
}

} // verus!
