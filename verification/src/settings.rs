//! The rebuild coordinator and render-parameter sync: owns the generation
//! parameters, the display parameters, the dirty flag and the live volume.
//! Edits to generation parameters mark the state dirty; once per tick a due
//! rebuild runs synchronously and the display parameters are copied out for
//! the renderer, both from the same parameter snapshot.
//!
//! Display scalars are held in thousandths (milli units): a multiplier of
//! 2.0 is 2000, a threshold of 0.2 is 200.

use vstd::prelude::*;

use crate::volume::{
    bake_volume, cube, volume_spec, zero_volume, GenerationParameters, NoiseVolume,
};

verus! {

/// Clamps `v` into `[lo, hi]`.
pub open spec fn clamp_spec(v: u32, lo: u32, hi: u32) -> u32 {
    if v < lo {
        lo
    } else if v > hi {
        hi
    } else {
        v
    }
}

fn clamp(v: u32, lo: u32, hi: u32) -> (r: u32)
    requires
        lo <= hi,
    ensures
        r == clamp_spec(v, lo, hi),
{
    if v < lo {
        lo
    } else if v > hi {
        hi
    } else {
        v
    }
}

/// Live display parameters, read every tick by the renderer; they never
/// affect the baked volume. Color channels and scalars are in milli units.
#[derive(Clone, Copy, Debug, PartialEq, Eq, Structural)]
pub struct DisplayParameters {
    pub color_r_milli: u32,
    pub color_g_milli: u32,
    pub color_b_milli: u32,
    pub density_multiplier_milli: u32,
    pub threshold_milli: u32,
    pub absorption_milli: u32,
    pub steps: u32,
}

impl DisplayParameters {
    /// The documented ranges: color channels and threshold in `[0, 1]`,
    /// multiplier and absorption in `[0, 10]`, steps in `[4, 64]`.
    pub open spec fn valid(self) -> bool {
        &&& self.color_r_milli <= 1000
        &&& self.color_g_milli <= 1000
        &&& self.color_b_milli <= 1000
        &&& self.density_multiplier_milli <= 10000
        &&& self.threshold_milli <= 1000
        &&& self.absorption_milli <= 10000
        &&& 4 <= self.steps <= 64
    }

    /// The documented defaults: near-white color, multiplier 2.0,
    /// threshold 0.2, absorption 3.0, 16 steps.
    pub open spec fn default_spec() -> DisplayParameters {
        DisplayParameters {
            color_r_milli: 900,
            color_g_milli: 900,
            color_b_milli: 1000,
            density_multiplier_milli: 2000,
            threshold_milli: 200,
            absorption_milli: 3000,
            steps: 16,
        }
    }
}

impl Default for DisplayParameters {
    fn default() -> (r: Self)
        ensures
            r == DisplayParameters::default_spec(),
            r.valid(),
    {
        DisplayParameters {
            color_r_milli: 900,
            color_g_milli: 900,
            color_b_milli: 1000,
            density_multiplier_milli: 2000,
            threshold_milli: 200,
            absorption_milli: 3000,
            steps: 16,
        }
    }
}

/// The structure the rendering consumer reads: the display parameters of
/// the tick that produced it, copied verbatim.
#[derive(Clone, Copy, Debug, PartialEq, Eq, Structural)]
pub struct CloudMaterialUniform {
    pub color_r_milli: u32,
    pub color_g_milli: u32,
    pub color_b_milli: u32,
    pub density_multiplier_milli: u32,
    pub threshold_milli: u32,
    pub absorption_milli: u32,
    pub steps: u32,
}

/// The uniform that a tick with display parameters `d` hands the renderer.
pub open spec fn uniform_of(d: DisplayParameters) -> CloudMaterialUniform {
    CloudMaterialUniform {
        color_r_milli: d.color_r_milli,
        color_g_milli: d.color_g_milli,
        color_b_milli: d.color_b_milli,
        density_multiplier_milli: d.density_multiplier_milli,
        threshold_milli: d.threshold_milli,
        absorption_milli: d.absorption_milli,
        steps: d.steps,
    }
}

/// The whole live state: generation parameters, display parameters, the
/// dirty flag, the live volume and a count of completed bakes.
pub struct CloudSettings {
    pub gen: GenerationParameters,
    pub display: DisplayParameters,
    pub needs_rebuild: bool,
    pub bake_count: u64,
    pub volume: NoiseVolume,
}

impl CloudSettings {
    /// The state invariant: parameters stay in range, the volume has its
    /// full size, and a clean state means the live volume was baked from
    /// the current generation parameters.
    pub open spec fn inv(self) -> bool {
        &&& self.gen.valid()
        &&& self.display.valid()
        &&& self.volume.wf()
        &&& !self.needs_rebuild ==> (self.volume.resolution == self.gen.resolution
            && self.volume.data@ == volume_spec(self.gen))
    }

    /// Startup state: documented defaults, an all-zero sentinel volume,
    /// and a pending rebuild.
    pub fn new() -> (s: CloudSettings)
        ensures
            s.inv(),
            s.gen == GenerationParameters::default_spec(),
            s.display == DisplayParameters::default_spec(),
            s.needs_rebuild,
            s.bake_count == 0,
            s.volume.data@.len() == cube(s.gen.resolution as int),
            forall|i: int| 0 <= i < s.volume.data@.len() ==> s.volume.data@[i] == 0u8,
    {
        let gen = GenerationParameters::default();
        let display = DisplayParameters::default();
        let volume = zero_volume(gen.resolution);
        CloudSettings { gen, display, needs_rebuild: true, bake_count: 0, volume }
    }

    /// Edits the seed; marks the state dirty.
    pub fn set_seed(&mut self, v: u32)
        requires
            old(self).inv(),
        ensures
            final(self).inv(),
            final(self).gen == (GenerationParameters { seed: v, ..old(self).gen }),
            final(self).display == old(self).display,
            final(self).needs_rebuild,
            final(self).bake_count == old(self).bake_count,
            final(self).volume == old(self).volume,
    {
        self.gen.seed = v;
        self.needs_rebuild = true;
    }

    /// Edits the frequency, clamped to the documented range `[1, 10]`
    /// (in `FREQ_SCALE` units); marks the state dirty.
    pub fn set_frequency_fp(&mut self, v: u32)
        requires
            old(self).inv(),
        ensures
            final(self).inv(),
            final(self).gen == (GenerationParameters {
                frequency_fp: clamp_spec(v, 256, 2560),
                ..old(self).gen
            }),
            final(self).display == old(self).display,
            final(self).needs_rebuild,
            final(self).bake_count == old(self).bake_count,
            final(self).volume == old(self).volume,
    {
        self.gen.frequency_fp = clamp(v, 256, 2560);
        self.needs_rebuild = true;
    }

    /// Edits the feature-point count, clamped to the documented range
    /// `[4, 64]`; marks the state dirty.
    pub fn set_feature_point_count(&mut self, v: u32)
        requires
            old(self).inv(),
        ensures
            final(self).inv(),
            final(self).gen == (GenerationParameters {
                feature_point_count: clamp_spec(v, 4, 64),
                ..old(self).gen
            }),
            final(self).display == old(self).display,
            final(self).needs_rebuild,
            final(self).bake_count == old(self).bake_count,
            final(self).volume == old(self).volume,
    {
        self.gen.feature_point_count = clamp(v, 4, 64);
        self.needs_rebuild = true;
    }

    /// Edits the cloud color, channels clamped to `[0, 1]`; display edits
    /// never mark the state dirty.
    pub fn set_color_milli(&mut self, r: u32, g: u32, b: u32)
        requires
            old(self).inv(),
        ensures
            final(self).inv(),
            final(self).display == (DisplayParameters {
                color_r_milli: clamp_spec(r, 0, 1000),
                color_g_milli: clamp_spec(g, 0, 1000),
                color_b_milli: clamp_spec(b, 0, 1000),
                ..old(self).display
            }),
            final(self).gen == old(self).gen,
            final(self).needs_rebuild == old(self).needs_rebuild,
            final(self).bake_count == old(self).bake_count,
            final(self).volume == old(self).volume,
    {
        self.display.color_r_milli = clamp(r, 0, 1000);
        self.display.color_g_milli = clamp(g, 0, 1000);
        self.display.color_b_milli = clamp(b, 0, 1000);
    }

    /// Edits the density multiplier, clamped to `[0, 10]`; never dirties.
    pub fn set_density_multiplier_milli(&mut self, v: u32)
        requires
            old(self).inv(),
        ensures
            final(self).inv(),
            final(self).display == (DisplayParameters {
                density_multiplier_milli: clamp_spec(v, 0, 10000),
                ..old(self).display
            }),
            final(self).gen == old(self).gen,
            final(self).needs_rebuild == old(self).needs_rebuild,
            final(self).bake_count == old(self).bake_count,
            final(self).volume == old(self).volume,
    {
        self.display.density_multiplier_milli = clamp(v, 0, 10000);
    }

    /// Edits the threshold, clamped to `[0, 1]`; never dirties.
    pub fn set_threshold_milli(&mut self, v: u32)
        requires
            old(self).inv(),
        ensures
            final(self).inv(),
            final(self).display == (DisplayParameters {
                threshold_milli: clamp_spec(v, 0, 1000),
                ..old(self).display
            }),
            final(self).gen == old(self).gen,
            final(self).needs_rebuild == old(self).needs_rebuild,
            final(self).bake_count == old(self).bake_count,
            final(self).volume == old(self).volume,
    {
        self.display.threshold_milli = clamp(v, 0, 1000);
    }

    /// Edits the absorption, clamped to `[0, 10]`; never dirties.
    pub fn set_absorption_milli(&mut self, v: u32)
        requires
            old(self).inv(),
        ensures
            final(self).inv(),
            final(self).display == (DisplayParameters {
                absorption_milli: clamp_spec(v, 0, 10000),
                ..old(self).display
            }),
            final(self).gen == old(self).gen,
            final(self).needs_rebuild == old(self).needs_rebuild,
            final(self).bake_count == old(self).bake_count,
            final(self).volume == old(self).volume,
    {
        self.display.absorption_milli = clamp(v, 0, 10000);
    }

    /// Edits the ray-march step count, clamped to `[4, 64]`; never dirties.
    pub fn set_steps(&mut self, v: u32)
        requires
            old(self).inv(),
        ensures
            final(self).inv(),
            final(self).display == (DisplayParameters {
                steps: clamp_spec(v, 4, 64),
                ..old(self).display
            }),
            final(self).gen == old(self).gen,
            final(self).needs_rebuild == old(self).needs_rebuild,
            final(self).bake_count == old(self).bake_count,
            final(self).volume == old(self).volume,
    {
        self.display.steps = clamp(v, 4, 64);
    }

    /// Reset to defaults: both parameter sets are reassigned wholesale and
    /// the state is marked dirty.
    pub fn reset(&mut self)
        requires
            old(self).inv(),
        ensures
            final(self).inv(),
            final(self).gen == GenerationParameters::default_spec(),
            final(self).display == DisplayParameters::default_spec(),
            final(self).needs_rebuild,
            final(self).bake_count == old(self).bake_count,
            final(self).volume == old(self).volume,
    {
        self.gen = GenerationParameters::default();
        self.display = DisplayParameters::default();
        self.needs_rebuild = true;
    }

    /// One scheduling tick: if dirty, bake exactly once from the current
    /// generation parameters, replace the live volume wholesale and clear
    /// the flag; a clean tick bakes nothing and leaves the volume alone.
    /// Either way the returned uniform carries the display parameters of
    /// this same tick's snapshot. Edits coalesce: however many edits
    /// preceded this tick, at most one bake runs, from the final values.
    pub fn tick(&mut self) -> (u: CloudMaterialUniform)
        requires
            old(self).inv(),
            old(self).bake_count < u64::MAX,
        ensures
            final(self).inv(),
            !final(self).needs_rebuild,
            final(self).gen == old(self).gen,
            final(self).display == old(self).display,
            final(self).volume.data@ == volume_spec(old(self).gen),
            final(self).bake_count == old(self).bake_count + (if old(self).needs_rebuild {
                1int
            } else {
                0int
            }),
            !old(self).needs_rebuild ==> final(self).volume == old(self).volume,
            u == uniform_of(old(self).display),
    {
        if self.needs_rebuild {
            self.volume = bake_volume(&self.gen);
            self.needs_rebuild = false;
            self.bake_count = self.bake_count + 1;
        }
        CloudMaterialUniform {
            color_r_milli: self.display.color_r_milli,
            color_g_milli: self.display.color_g_milli,
            color_b_milli: self.display.color_b_milli,
            density_multiplier_milli: self.display.density_multiplier_milli,
            threshold_milli: self.display.threshold_milli,
            absorption_milli: self.display.absorption_milli,
            steps: self.display.steps,
        }
    }
}

} // verus!
