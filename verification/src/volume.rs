//! The volume baker: drives the tiled cellular field over every voxel of a
//! cubic grid and quantizes each density to a byte. A bake is a pure
//! function of its parameter snapshot.

use vstd::prelude::*;

use crate::math::{quantize, quantize_spec, COORD_SCALE, DENSITY_SCALE, FREQ_FP_MAX};
use crate::points::{
    gen_points, generate_feature_points, Point, FEATURE_COUNT_LIMIT,
};
use crate::field::{density_at, density_of};

verus! {

/// Largest supported cubic resolution; keeps the voxel count, and with it
/// the cost of one synchronous bake, bounded.
pub const RESOLUTION_MAX: u32 = 256;

/// One immutable snapshot of the generation parameters, consumed by a bake.
#[derive(Clone, Copy, Debug, PartialEq, Eq, Structural)]
pub struct GenerationParameters {
    /// Seed of the feature-point stream.
    pub seed: u32,
    /// Cells per cube edge, in `FREQ_SCALE` units.
    pub frequency_fp: u32,
    /// Number of feature points; zero yields an all-zero volume.
    pub feature_point_count: u32,
    /// Voxels per edge of the cubic volume.
    pub resolution: u32,
}

impl GenerationParameters {
    /// The parameter ranges a bake accepts: a positive, bounded frequency
    /// and a positive, bounded resolution.
    pub open spec fn valid(self) -> bool {
        &&& 0 < self.frequency_fp <= FREQ_FP_MAX
        &&& self.feature_point_count <= FEATURE_COUNT_LIMIT
        &&& 0 < self.resolution <= RESOLUTION_MAX
    }

    /// The documented defaults: seed 1, frequency 4, 16 feature points,
    /// resolution 32.
    pub open spec fn default_spec() -> GenerationParameters {
        GenerationParameters { seed: 1, frequency_fp: 1024, feature_point_count: 16, resolution: 32 }
    }
}

impl Default for GenerationParameters {
    fn default() -> (r: Self)
        ensures
            r == GenerationParameters::default_spec(),
            r.valid(),
    {
        GenerationParameters { seed: 1, frequency_fp: 1024, feature_point_count: 16, resolution: 32 }
    }
}

/// The error a bake returns when a parameter lies outside its range.
#[derive(Clone, Copy, Debug, PartialEq, Eq, Structural)]
pub enum NoiseError {
    InvalidParameter,
}

/// A dense cubic buffer of byte densities, row-major with x fastest,
/// then y, then z.
pub struct NoiseVolume {
    pub data: Vec<u8>,
    pub resolution: u32,
}

pub open spec fn cube(r: int) -> int {
    r * r * r
}

impl NoiseVolume {
    pub open spec fn wf(self) -> bool {
        self.data@.len() == cube(self.resolution as int)
    }
}

/// Grid coordinate `v` of a `res`-voxel edge mapped to a fixed-point
/// position in the unit cube.
pub open spec fn sample_of(v: int, res: int) -> int {
    v * (COORD_SCALE as int) / res
}

/// The sample position of the voxel at flat index `i`, decoded row-major.
pub open spec fn voxel_point(i: int, res: int) -> Point {
    Point {
        x: sample_of(i % res, res) as u32,
        y: sample_of((i / res) % res, res) as u32,
        z: sample_of(i / (res * res), res) as u32,
    }
}

/// The volume a bake of `p` produces: for every voxel, the density of the
/// tiled cellular field over the feature points of `(seed, count)`,
/// quantized to a byte. A function of `p` alone.
pub open spec fn volume_spec(p: GenerationParameters) -> Seq<u8> {
    Seq::new(
        cube(p.resolution as int) as nat,
        |i: int|
            quantize_spec(
                density_of(
                    p.frequency_fp as int,
                    voxel_point(i, p.resolution as int),
                    gen_points(p.seed, p.feature_point_count),
                ),
            ) as u8,
    )
}

/// An all-zero sentinel volume, the live volume before the first bake.
pub fn zero_volume(resolution: u32) -> (v: NoiseVolume)
    requires
        0 < resolution <= RESOLUTION_MAX,
    ensures
        v.wf(),
        v.resolution == resolution,
        forall|i: int| 0 <= i < v.data@.len() ==> v.data@[i] == 0u8,
{
    let res = resolution as usize;
    proof {
        assert((res as int) * (res as int) <= 65536) by (nonlinear_arith)
            requires
                0 < res <= 256,
        ;
        assert((res as int) * (res as int) * (res as int) <= 16777216) by (nonlinear_arith)
            requires
                0 < res <= 256,
        ;
    }
    let n: usize = res * res * res;
    let mut data: Vec<u8> = Vec::new();
    let mut i: usize = 0;
    while i < n
        invariant
            i <= n,
            data@.len() == i,
            forall|j: int| 0 <= j < i ==> data@[j] == 0u8,
        decreases n - i,
    {
        data.push(0u8);
        i = i + 1;
    }
    NoiseVolume { data, resolution }
}

/// Bakes the volume for a snapshot already known to be valid.
pub fn bake_volume(params: &GenerationParameters) -> (v: NoiseVolume)
    requires
        params.valid(),
    ensures
        v.wf(),
        v.resolution == params.resolution,
        v.data@ == volume_spec(*params),
{
    let res = params.resolution as usize;
    let pts = generate_feature_points(params.seed, params.feature_point_count);
    proof {
        assert((res as int) * (res as int) <= 65536) by (nonlinear_arith)
            requires
                0 < res <= 256,
        ;
        assert((res as int) * (res as int) * (res as int) <= 16777216) by (nonlinear_arith)
            requires
                0 < res <= 256,
        ;
    }
    let n: usize = res * res * res;
    let mut data: Vec<u8> = Vec::new();
    let mut i: usize = 0;
    while i < n
        invariant
            i <= n,
            params.valid(),
            res == params.resolution,
            n == cube(res as int),
            pts@ == gen_points(params.seed, params.feature_point_count),
            forall|j: int| 0 <= j < pts@.len() ==> crate::points::point_wf(#[trigger] pts@[j]),
            data@.len() == i,
            forall|j: int| 0 <= j < i ==> data@[j] == volume_spec(*params)[j],
        decreases n - i,
    {
        proof {
            assert(1 <= (res as int) * (res as int) <= 65536) by (nonlinear_arith)
                requires
                    0 < res <= 256,
            ;
        }
        let x: usize = i % res;
        let y: usize = (i / res) % res;
        let z: usize = i / (res * res);
        proof {
            assert(x < res);
            assert(y < res);
            assert((i as int) < (res as int) * (res as int) * (res as int) ==> (i as int) / (
            (res as int) * (res as int)) < (res as int)) by (nonlinear_arith)
                requires
                    0 < res,
                    i >= 0,
            ;
            assert((x as int) * (COORD_SCALE as int) / (res as int) < COORD_SCALE as int)
                by (nonlinear_arith)
                requires
                    0 <= x < res,
            ;
            assert((y as int) * (COORD_SCALE as int) / (res as int) < COORD_SCALE as int)
                by (nonlinear_arith)
                requires
                    0 <= y < res,
            ;
            assert((z as int) * (COORD_SCALE as int) / (res as int) < COORD_SCALE as int)
                by (nonlinear_arith)
                requires
                    0 <= z < res,
            ;
        }
        let px: u32 = ((x * 65536) / res) as u32;
        let py: u32 = ((y * 65536) / res) as u32;
        let pz: u32 = ((z * 65536) / res) as u32;
        let p = Point { x: px, y: py, z: pz };
        proof {
            assert(p == voxel_point(i as int, res as int));
        }
        let d = density_at(&p, &pts, params.frequency_fp);
        let b = quantize(d);
        data.push(b);
        i = i + 1;
    }
    proof {
        assert(data@ =~= volume_spec(*params));
    }
    NoiseVolume { data, resolution: params.resolution }
}

/// Bakes a volume from `params`, first rejecting any out-of-range
/// parameter: success exactly when `params.valid()`, and on success the
/// buffer equals `volume_spec(params)` bit for bit.
pub fn bake(params: &GenerationParameters) -> (r: Result<NoiseVolume, NoiseError>)
    ensures
        params.valid() ==> (r matches Ok(v) && v.wf() && v.resolution == params.resolution
            && v.data@ == volume_spec(*params)),
        !params.valid() ==> (r matches Err(e) && e == NoiseError::InvalidParameter),
{
    if params.frequency_fp == 0 || params.frequency_fp > FREQ_FP_MAX
        || params.feature_point_count > FEATURE_COUNT_LIMIT || params.resolution == 0
        || params.resolution > RESOLUTION_MAX {
        return Err(NoiseError::InvalidParameter);
    }
    Ok(bake_volume(params))
}

/// Bake determinism: two volumes baked from the same parameter snapshot
/// are identical, bit for bit.
pub proof fn lemma_bake_deterministic(p: GenerationParameters, a: Seq<u8>, b: Seq<u8>)
    requires
        a == volume_spec(p),
        b == volume_spec(p),
    ensures
        a == b,
{
}

/// An empty feature-point set yields the zero field: with
/// `feature_point_count == 0` every voxel of the baked volume is zero.
pub proof fn lemma_empty_points_zero_volume(p: GenerationParameters)
    requires
        p.feature_point_count == 0,
    ensures
        volume_spec(p).len() == cube(p.resolution as int),
        forall|i: int| 0 <= i < volume_spec(p).len() ==> volume_spec(p)[i] == 0u8,
{
    assert(gen_points(p.seed, 0).len() == 0);
    assert forall|i: int| 0 <= i < volume_spec(p).len() implies volume_spec(p)[i] == 0u8 by {
        assert(density_of(
            p.frequency_fp as int,
            voxel_point(i, p.resolution as int),
            gen_points(p.seed, p.feature_point_count),
        ) == 0);
        assert(quantize_spec(0) == 0);
    }
}

} // verus!
