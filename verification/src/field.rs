//! The tiled cellular (Worley) field: for a sample position, the minimum
//! squared distance to any feature point under the 27-neighbour periodic
//! tiling, mapped to a fixed-point density in `[0, DENSITY_SCALE]`.
//!
//! All distances are squared and carried as integers: a coordinate
//! difference `d` (in `COORD_SCALE` units) scaled by a frequency `f` (in
//! `FREQ_SCALE` units) contributes `f * f * d * d`, so a squared scaled
//! distance is measured in `DENSITY_SCALE^2` units and the density is
//! `DENSITY_SCALE - sqrt` of it, clamped at zero.

use vstd::prelude::*;

use crate::math::{
    sqrt_floor, lemma_sqrt_floor_bounds, isqrt, COORD_SCALE, FREQ_FP_MAX, DENSITY_SCALE,
    DENSITY_SCALE_SQ,
};
use crate::points::{Point, point_wf};

verus! {

/// Largest squared axis difference: both ends lie within one tile of the
/// unit cell, so a difference is at most `2 * COORD_SCALE` in magnitude.
pub const MAX_AXIS_SQ: u64 = 17179869184;

pub open spec fn sq(d: int) -> int {
    d * d
}

pub open spec fn min2(a: int, b: int) -> int {
    if a <= b {
        a
    } else {
        b
    }
}

pub open spec fn min3(a: int, b: int, c: int) -> int {
    min2(a, min2(b, c))
}

/// Squared scaled distance of one tiling candidate, from its three squared
/// axis differences: `f^2 * (xx + yy + zz)`.
pub open spec fn cand(f: int, xx: int, yy: int, zz: int) -> int {
    f * f * (xx + yy + zz)
}

/// Minimum candidate over the three z-axis tile offsets.
pub open spec fn zmin(f: int, xx: int, yy: int, pz: int, qz: int) -> int {
    min3(
        cand(f, xx, yy, sq(pz - qz + COORD_SCALE as int)),
        cand(f, xx, yy, sq(pz - qz)),
        cand(f, xx, yy, sq(pz - qz - COORD_SCALE as int)),
    )
}

/// Minimum candidate over the three y-axis and three z-axis tile offsets.
pub open spec fn ymin(f: int, xx: int, py: int, qy: int, pz: int, qz: int) -> int {
    min3(
        zmin(f, xx, sq(py - qy + COORD_SCALE as int), pz, qz),
        zmin(f, xx, sq(py - qy), pz, qz),
        zmin(f, xx, sq(py - qy - COORD_SCALE as int), pz, qz),
    )
}

/// Minimum squared scaled distance from sample `p` to feature point `q`
/// over all 27 tile offsets.
pub open spec fn point_min(f: int, p: Point, q: Point) -> int {
    min3(
        ymin(
            f,
            sq(p.x as int - q.x as int + COORD_SCALE as int),
            p.y as int,
            q.y as int,
            p.z as int,
            q.z as int,
        ),
        ymin(f, sq(p.x as int - q.x as int), p.y as int, q.y as int, p.z as int, q.z as int),
        ymin(
            f,
            sq(p.x as int - q.x as int - COORD_SCALE as int),
            p.y as int,
            q.y as int,
            p.z as int,
            q.z as int,
        ),
    )
}

/// Minimum squared scaled distance from `p` to any point of `pts` under
/// tiling; meaningful only for a non-empty `pts`.
pub open spec fn field_min(f: int, p: Point, pts: Seq<Point>) -> int
    decreases pts.len(),
{
    if pts.len() <= 1 {
        point_min(f, p, pts[0])
    } else {
        min2(field_min(f, p, pts.drop_last()), point_min(f, p, pts.last()))
    }
}

/// The density of the field at `p`: zero for an empty point set, else
/// `1 - min(distance, 1)` in `DENSITY_SCALE` units.
pub open spec fn density_of(f: int, p: Point, pts: Seq<Point>) -> int {
    if pts.len() == 0 {
        0
    } else {
        let m = field_min(f, p, pts);
        if m >= DENSITY_SCALE_SQ as int {
            0
        } else {
            DENSITY_SCALE as int - sqrt_floor(m)
        }
    }
}

proof fn lemma_sq_nonneg(d: int)
    ensures
        sq(d) >= 0,
{
    assert(d * d >= 0) by (nonlinear_arith);
}

proof fn lemma_cand_nonneg(f: int, xx: int, yy: int, zz: int)
    requires
        xx >= 0,
        yy >= 0,
        zz >= 0,
    ensures
        cand(f, xx, yy, zz) >= 0,
{
    assert(f * f * (xx + yy + zz) >= 0) by (nonlinear_arith)
        requires
            xx >= 0,
            yy >= 0,
            zz >= 0,
    ;
}

proof fn lemma_zmin_nonneg(f: int, xx: int, yy: int, pz: int, qz: int)
    requires
        xx >= 0,
        yy >= 0,
    ensures
        zmin(f, xx, yy, pz, qz) >= 0,
{
    lemma_sq_nonneg(pz - qz + COORD_SCALE as int);
    lemma_sq_nonneg(pz - qz);
    lemma_sq_nonneg(pz - qz - COORD_SCALE as int);
    lemma_cand_nonneg(f, xx, yy, sq(pz - qz + COORD_SCALE as int));
    lemma_cand_nonneg(f, xx, yy, sq(pz - qz));
    lemma_cand_nonneg(f, xx, yy, sq(pz - qz - COORD_SCALE as int));
}

proof fn lemma_ymin_nonneg(f: int, xx: int, py: int, qy: int, pz: int, qz: int)
    requires
        xx >= 0,
    ensures
        ymin(f, xx, py, qy, pz, qz) >= 0,
{
    lemma_sq_nonneg(py - qy + COORD_SCALE as int);
    lemma_sq_nonneg(py - qy);
    lemma_sq_nonneg(py - qy - COORD_SCALE as int);
    lemma_zmin_nonneg(f, xx, sq(py - qy + COORD_SCALE as int), pz, qz);
    lemma_zmin_nonneg(f, xx, sq(py - qy), pz, qz);
    lemma_zmin_nonneg(f, xx, sq(py - qy - COORD_SCALE as int), pz, qz);
}

proof fn lemma_point_min_nonneg(f: int, p: Point, q: Point)
    ensures
        point_min(f, p, q) >= 0,
{
    lemma_sq_nonneg(p.x as int - q.x as int + COORD_SCALE as int);
    lemma_sq_nonneg(p.x as int - q.x as int);
    lemma_sq_nonneg(p.x as int - q.x as int - COORD_SCALE as int);
    lemma_ymin_nonneg(
        f,
        sq(p.x as int - q.x as int + COORD_SCALE as int),
        p.y as int,
        q.y as int,
        p.z as int,
        q.z as int,
    );
    lemma_ymin_nonneg(
        f,
        sq(p.x as int - q.x as int),
        p.y as int,
        q.y as int,
        p.z as int,
        q.z as int,
    );
    lemma_ymin_nonneg(
        f,
        sq(p.x as int - q.x as int - COORD_SCALE as int),
        p.y as int,
        q.y as int,
        p.z as int,
        q.z as int,
    );
}

proof fn lemma_field_min_nonneg(f: int, p: Point, pts: Seq<Point>)
    requires
        pts.len() > 0,
    ensures
        field_min(f, p, pts) >= 0,
    decreases pts.len(),
{
    if pts.len() == 1 {
        lemma_point_min_nonneg(f, p, pts[0]);
    } else {
        lemma_field_min_nonneg(f, p, pts.drop_last());
        lemma_point_min_nonneg(f, p, pts.last());
    }
}

/// Range invariant of the field: every density lies in `[0, DENSITY_SCALE]`,
/// that is, in `[0, 1]` of the unit density range.
pub proof fn lemma_density_range(f: int, p: Point, pts: Seq<Point>)
    ensures
        0 <= density_of(f, p, pts) <= DENSITY_SCALE as int,
{
    if pts.len() > 0 {
        let m = field_min(f, p, pts);
        lemma_field_min_nonneg(f, p, pts);
        if m < DENSITY_SCALE_SQ as int {
            lemma_sqrt_floor_bounds(m);
            let s = sqrt_floor(m);
            if s >= DENSITY_SCALE as int {
                assert(s * s >= (DENSITY_SCALE as int) * (DENSITY_SCALE as int))
                    by (nonlinear_arith)
                    requires
                        s >= DENSITY_SCALE as int,
                ;
            }
        }
    }
}

fn min3_e(a: u64, b: u64, c: u64) -> (r: u64)
    ensures
        r as int == min3(a as int, b as int, c as int),
{
    let m: u64 = if b <= c {
        b
    } else {
        c
    };
    if a <= m {
        a
    } else {
        m
    }
}

/// The three squared axis differences of a coordinate pair, one per tile
/// offset of that axis.
fn axis_offsets_sq(p: u32, q: u32) -> (r: (u64, u64, u64))
    requires
        p <= COORD_SCALE,
        q < COORD_SCALE,
    ensures
        r.0 as int == sq(p as int - q as int + COORD_SCALE as int),
        r.1 as int == sq(p as int - q as int),
        r.2 as int == sq(p as int - q as int - COORD_SCALE as int),
        r.0 <= MAX_AXIS_SQ,
        r.1 <= MAX_AXIS_SQ,
        r.2 <= MAX_AXIS_SQ,
{
    let d: i64 = p as i64 - q as i64;
    let a: i64 = d + 65536;
    let c: i64 = d - 65536;
    proof {
        assert(a * a >= 0 && a * a <= 17179869184) by (nonlinear_arith)
            requires
                -131072 <= a <= 131072,
        ;
        assert(d * d >= 0 && d * d <= 17179869184) by (nonlinear_arith)
            requires
                -131072 <= d <= 131072,
        ;
        assert(c * c >= 0 && c * c <= 17179869184) by (nonlinear_arith)
            requires
                -131072 <= c <= 131072,
        ;
    }
    ((a * a) as u64, (d * d) as u64, (c * c) as u64)
}

fn cand_e(f: u32, xx: u64, yy: u64, zz: u64) -> (r: u64)
    requires
        f <= FREQ_FP_MAX,
        xx <= MAX_AXIS_SQ,
        yy <= MAX_AXIS_SQ,
        zz <= MAX_AXIS_SQ,
    ensures
        r as int == cand(f as int, xx as int, yy as int, zz as int),
{
    proof {
        assert((f as int) * (f as int) <= 6553600) by (nonlinear_arith)
            requires
                0 <= f <= 2560,
        ;
    }
    let ff: u64 = (f as u64) * (f as u64);
    let s: u64 = xx + yy + zz;
    proof {
        assert((ff as int) * (s as int) <= 6553600 * 51539607552) by (nonlinear_arith)
            requires
                0 <= ff <= 6553600,
                0 <= s <= 51539607552,
        ;
    }
    ff * s
}

fn zmin_e(f: u32, xx: u64, yy: u64, pz: u32, qz: u32) -> (r: u64)
    requires
        f <= FREQ_FP_MAX,
        xx <= MAX_AXIS_SQ,
        yy <= MAX_AXIS_SQ,
        pz <= COORD_SCALE,
        qz < COORD_SCALE,
    ensures
        r as int == zmin(f as int, xx as int, yy as int, pz as int, qz as int),
{
    let offs = axis_offsets_sq(pz, qz);
    min3_e(
        cand_e(f, xx, yy, offs.0),
        cand_e(f, xx, yy, offs.1),
        cand_e(f, xx, yy, offs.2),
    )
}

fn ymin_e(f: u32, xx: u64, py: u32, qy: u32, pz: u32, qz: u32) -> (r: u64)
    requires
        f <= FREQ_FP_MAX,
        xx <= MAX_AXIS_SQ,
        py <= COORD_SCALE,
        qy < COORD_SCALE,
        pz <= COORD_SCALE,
        qz < COORD_SCALE,
    ensures
        r as int == ymin(f as int, xx as int, py as int, qy as int, pz as int, qz as int),
{
    let offs = axis_offsets_sq(py, qy);
    min3_e(
        zmin_e(f, xx, offs.0, pz, qz),
        zmin_e(f, xx, offs.1, pz, qz),
        zmin_e(f, xx, offs.2, pz, qz),
    )
}

fn point_min_e(f: u32, p: &Point, q: &Point) -> (r: u64)
    requires
        f <= FREQ_FP_MAX,
        p.x <= COORD_SCALE,
        p.y <= COORD_SCALE,
        p.z <= COORD_SCALE,
        point_wf(*q),
    ensures
        r as int == point_min(f as int, *p, *q),
{
    let offs = axis_offsets_sq(p.x, q.x);
    min3_e(
        ymin_e(f, offs.0, p.y, q.y, p.z, q.z),
        ymin_e(f, offs.1, p.y, q.y, p.z, q.z),
        ymin_e(f, offs.2, p.y, q.y, p.z, q.z),
    )
}

/// Evaluates the tiled cellular field at `p`: the density derived from the
/// minimum distance, over all feature points and all 27 tile offsets, from
/// the frequency-scaled sample position. The result equals `density_of`
/// exactly and lies in `[0, DENSITY_SCALE]`.
pub fn density_at(p: &Point, pts: &Vec<Point>, f: u32) -> (r: u32)
    requires
        0 < f <= FREQ_FP_MAX,
        p.x <= COORD_SCALE,
        p.y <= COORD_SCALE,
        p.z <= COORD_SCALE,
        forall|i: int| 0 <= i < pts@.len() ==> point_wf(#[trigger] pts@[i]),
    ensures
        r as int == density_of(f as int, *p, pts@),
        r <= DENSITY_SCALE,
{
    if pts.len() == 0 {
        return 0;
    }
    let mut best: u64 = point_min_e(f, p, &pts[0]);
    proof {
        assert(pts@.take(1).len() == 1);
        assert(pts@.take(1)[0] == pts@[0]);
    }
    let mut i: usize = 1;
    while i < pts.len()
        invariant
            1 <= i <= pts@.len(),
            0 < f <= FREQ_FP_MAX,
            p.x <= COORD_SCALE,
            p.y <= COORD_SCALE,
            p.z <= COORD_SCALE,
            forall|j: int| 0 <= j < pts@.len() ==> point_wf(#[trigger] pts@[j]),
            best as int == field_min(f as int, *p, pts@.take(i as int)),
        decreases pts@.len() - i,
    {
        let pm = point_min_e(f, p, &pts[i]);
        proof {
            let prefix = pts@.take(i as int + 1);
            assert(prefix.drop_last() =~= pts@.take(i as int));
            assert(prefix.last() == pts@[i as int]);
            assert(field_min(f as int, *p, prefix) == min2(
                field_min(f as int, *p, pts@.take(i as int)),
                point_min(f as int, *p, pts@[i as int]),
            ));
        }
        if pm < best {
            best = pm;
        }
        i = i + 1;
    }
    proof {
        assert(pts@.take(pts@.len() as int) =~= pts@);
    }
    if best >= DENSITY_SCALE_SQ {
        0
    } else {
        let t = isqrt(best);
        proof {
            lemma_sqrt_floor_bounds(best as int);
            if t as int >= DENSITY_SCALE as int {
                assert((t as int) * (t as int) >= (DENSITY_SCALE as int) * (DENSITY_SCALE as int))
                    by (nonlinear_arith)
                    requires
                        t as int >= DENSITY_SCALE as int,
                ;
            }
        }
        DENSITY_SCALE - (t as u32)
    }
}

proof fn lemma_cand_mono(f: int, xx1: int, yy1: int, zz1: int, xx2: int, yy2: int, zz2: int)
    requires
        xx1 + yy1 + zz1 <= xx2 + yy2 + zz2,
    ensures
        cand(f, xx1, yy1, zz1) <= cand(f, xx2, yy2, zz2),
{
    assert(f * f * (xx1 + yy1 + zz1) <= f * f * (xx2 + yy2 + zz2)) by (nonlinear_arith)
        requires
            xx1 + yy1 + zz1 <= xx2 + yy2 + zz2,
    ;
}

proof fn lemma_zmin_mono(f: int, xx1: int, yy1: int, xx2: int, yy2: int, pz: int, qz: int)
    requires
        xx1 <= xx2,
        yy1 <= yy2,
    ensures
        zmin(f, xx1, yy1, pz, qz) <= zmin(f, xx2, yy2, pz, qz),
{
    lemma_cand_mono(f, xx1, yy1, sq(pz - qz + COORD_SCALE as int), xx2, yy2, sq(pz - qz + COORD_SCALE as int));
    lemma_cand_mono(f, xx1, yy1, sq(pz - qz), xx2, yy2, sq(pz - qz));
    lemma_cand_mono(f, xx1, yy1, sq(pz - qz - COORD_SCALE as int), xx2, yy2, sq(pz - qz - COORD_SCALE as int));
}

proof fn lemma_ymin_mono(f: int, xx1: int, xx2: int, py: int, qy: int, pz: int, qz: int)
    requires
        xx1 <= xx2,
    ensures
        ymin(f, xx1, py, qy, pz, qz) <= ymin(f, xx2, py, qy, pz, qz),
{
    lemma_zmin_mono(f, xx1, sq(py - qy + COORD_SCALE as int), xx2, sq(py - qy + COORD_SCALE as int), pz, qz);
    lemma_zmin_mono(f, xx1, sq(py - qy), xx2, sq(py - qy), pz, qz);
    lemma_zmin_mono(f, xx1, sq(py - qy - COORD_SCALE as int), xx2, sq(py - qy - COORD_SCALE as int), pz, qz);
}

/// The squared differences that a wrapped coordinate pair shares with its
/// unwrapped counterpart dominate the two that they do not share.
proof fn lemma_axis_wrap_sq(q: int)
    requires
        0 <= q < COORD_SCALE as int,
    ensures
        sq(0 - q - COORD_SCALE as int) >= sq(0 - q),
        sq(COORD_SCALE as int - q + COORD_SCALE as int) >= sq(COORD_SCALE as int - q),
        sq(0 - q + COORD_SCALE as int) == sq(COORD_SCALE as int - q),
        sq(COORD_SCALE as int - q - COORD_SCALE as int) == sq(0 - q),
{
    let cs = COORD_SCALE as int;
    assert((0 - q - cs) * (0 - q - cs) >= (0 - q) * (0 - q)) by (nonlinear_arith)
        requires
            0 <= q,
            cs > 0,
    ;
    assert((cs - q + cs) * (cs - q + cs) >= (cs - q) * (cs - q)) by (nonlinear_arith)
        requires
            0 <= q < cs,
    ;
}

proof fn lemma_zmin_period(f: int, xx: int, yy: int, qz: int)
    requires
        0 <= qz < COORD_SCALE as int,
    ensures
        zmin(f, xx, yy, COORD_SCALE as int, qz) == zmin(f, xx, yy, 0, qz),
{
    let cs = COORD_SCALE as int;
    lemma_axis_wrap_sq(qz);
    lemma_cand_mono(f, xx, yy, sq(0 - qz), xx, yy, sq(0 - qz - cs));
    lemma_cand_mono(f, xx, yy, sq(cs - qz), xx, yy, sq(cs - qz + cs));
}

proof fn lemma_ymin_period(f: int, xx: int, qy: int, pz: int, qz: int)
    requires
        0 <= qy < COORD_SCALE as int,
    ensures
        ymin(f, xx, COORD_SCALE as int, qy, pz, qz) == ymin(f, xx, 0, qy, pz, qz),
{
    let cs = COORD_SCALE as int;
    lemma_axis_wrap_sq(qy);
    lemma_zmin_mono(f, xx, sq(0 - qy), xx, sq(0 - qy - cs), pz, qz);
    lemma_zmin_mono(f, xx, sq(cs - qy), xx, sq(cs - qy + cs), pz, qz);
}

proof fn lemma_ymin_period_z(f: int, xx: int, py: int, qy: int, qz: int)
    requires
        0 <= qz < COORD_SCALE as int,
    ensures
        ymin(f, xx, py, qy, COORD_SCALE as int, qz) == ymin(f, xx, py, qy, 0, qz),
{
    let cs = COORD_SCALE as int;
    lemma_zmin_period(f, xx, sq(py - qy + cs), qz);
    lemma_zmin_period(f, xx, sq(py - qy), qz);
    lemma_zmin_period(f, xx, sq(py - qy - cs), qz);
}

proof fn lemma_point_min_period_x(f: int, y: u32, z: u32, q: Point)
    requires
        point_wf(q),
    ensures
        point_min(f, (Point { x: COORD_SCALE, y, z }), q) == point_min(
            f,
            (Point { x: 0u32, y, z }),
            q,
        ),
{
    let cs = COORD_SCALE as int;
    let qx = q.x as int;
    lemma_axis_wrap_sq(qx);
    lemma_ymin_mono(f, sq(0 - qx), sq(0 - qx - cs), y as int, q.y as int, z as int, q.z as int);
    lemma_ymin_mono(f, sq(cs - qx), sq(cs - qx + cs), y as int, q.y as int, z as int, q.z as int);
}

proof fn lemma_point_min_period_y(f: int, x: u32, z: u32, q: Point)
    requires
        point_wf(q),
    ensures
        point_min(f, (Point { x, y: COORD_SCALE, z }), q) == point_min(
            f,
            (Point { x, y: 0u32, z }),
            q,
        ),
{
    let cs = COORD_SCALE as int;
    let xd = x as int - q.x as int;
    lemma_ymin_period(f, sq(xd + cs), q.y as int, z as int, q.z as int);
    lemma_ymin_period(f, sq(xd), q.y as int, z as int, q.z as int);
    lemma_ymin_period(f, sq(xd - cs), q.y as int, z as int, q.z as int);
}

proof fn lemma_point_min_period_z(f: int, x: u32, y: u32, q: Point)
    requires
        point_wf(q),
    ensures
        point_min(f, (Point { x, y, z: COORD_SCALE }), q) == point_min(
            f,
            (Point { x, y, z: 0u32 }),
            q,
        ),
{
    let cs = COORD_SCALE as int;
    let xd = x as int - q.x as int;
    lemma_ymin_period_z(f, sq(xd + cs), y as int, q.y as int, q.z as int);
    lemma_ymin_period_z(f, sq(xd), y as int, q.y as int, q.z as int);
    lemma_ymin_period_z(f, sq(xd - cs), y as int, q.y as int, q.z as int);
}

proof fn lemma_field_min_agree(f: int, pa: Point, pb: Point, pts: Seq<Point>)
    requires
        pts.len() > 0,
        forall|i: int|
            0 <= i < pts.len() ==> point_min(f, pa, #[trigger] pts[i]) == point_min(f, pb, pts[i]),
    ensures
        field_min(f, pa, pts) == field_min(f, pb, pts),
    decreases pts.len(),
{
    if pts.len() == 1 {
        assert(point_min(f, pa, pts[0]) == point_min(f, pb, pts[0]));
    } else {
        lemma_field_min_agree(f, pa, pb, pts.drop_last());
        assert(pts.last() == pts[pts.len() - 1]);
    }
}

/// Tiling continuity across the x faces of the unit cell: the density on
/// the far face equals the density at the wrapped position on the near
/// face, exactly.
pub proof fn lemma_tiling_continuity_x(f: int, y: u32, z: u32, pts: Seq<Point>)
    requires
        forall|i: int| 0 <= i < pts.len() ==> point_wf(#[trigger] pts[i]),
    ensures
        density_of(f, (Point { x: COORD_SCALE, y, z }), pts) == density_of(
            f,
            (Point { x: 0u32, y, z }),
            pts,
        ),
{
    if pts.len() > 0 {
        let pa = Point { x: COORD_SCALE, y, z };
        let pb = Point { x: 0u32, y, z };
        assert forall|i: int| 0 <= i < pts.len() implies point_min(f, pa, #[trigger] pts[i])
            == point_min(f, pb, pts[i]) by {
            lemma_point_min_period_x(f, y, z, pts[i]);
        }
        lemma_field_min_agree(f, pa, pb, pts);
    }
}

/// Tiling continuity across the y faces of the unit cell.
pub proof fn lemma_tiling_continuity_y(f: int, x: u32, z: u32, pts: Seq<Point>)
    requires
        forall|i: int| 0 <= i < pts.len() ==> point_wf(#[trigger] pts[i]),
    ensures
        density_of(f, (Point { x, y: COORD_SCALE, z }), pts) == density_of(
            f,
            (Point { x, y: 0u32, z }),
            pts,
        ),
{
    if pts.len() > 0 {
        let pa = Point { x, y: COORD_SCALE, z };
        let pb = Point { x, y: 0u32, z };
        assert forall|i: int| 0 <= i < pts.len() implies point_min(f, pa, #[trigger] pts[i])
            == point_min(f, pb, pts[i]) by {
            lemma_point_min_period_y(f, x, z, pts[i]);
        }
        lemma_field_min_agree(f, pa, pb, pts);
    }
}

/// Tiling continuity across the z faces of the unit cell.
pub proof fn lemma_tiling_continuity_z(f: int, x: u32, y: u32, pts: Seq<Point>)
    requires
        forall|i: int| 0 <= i < pts.len() ==> point_wf(#[trigger] pts[i]),
    ensures
        density_of(f, (Point { x, y, z: COORD_SCALE }), pts) == density_of(
            f,
            (Point { x, y, z: 0u32 }),
            pts,
        ),
{
    if pts.len() > 0 {
        let pa = Point { x, y, z: COORD_SCALE };
        let pb = Point { x, y, z: 0u32 };
        assert forall|i: int| 0 <= i < pts.len() implies point_min(f, pa, #[trigger] pts[i])
            == point_min(f, pb, pts[i]) by {
            lemma_point_min_period_z(f, x, y, pts[i]);
        }
        lemma_field_min_agree(f, pa, pb, pts);
    }
}

} // verus!
