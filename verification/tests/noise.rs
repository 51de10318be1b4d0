use cloud_noise::field::density_at;
use cloud_noise::math::{isqrt, quantize, COORD_SCALE, DENSITY_SCALE};
use cloud_noise::points::{generate_feature_points, Point};
use cloud_noise::volume::{bake, GenerationParameters, NoiseError, RESOLUTION_MAX};

fn default_params() -> GenerationParameters {
    GenerationParameters::default()
}

#[test]
fn feature_points_deterministic() {
    let a = generate_feature_points(1, 16);
    let b = generate_feature_points(1, 16);
    assert_eq!(a, b);
    assert_eq!(a.len(), 16);
}

#[test]
fn feature_points_in_unit_cube() {
    let pts = generate_feature_points(7, 64);
    assert_eq!(pts.len(), 64);
    for p in &pts {
        assert!(p.x < COORD_SCALE);
        assert!(p.y < COORD_SCALE);
        assert!(p.z < COORD_SCALE);
    }
}

#[test]
fn feature_points_depend_on_seed() {
    let a = generate_feature_points(1, 16);
    let b = generate_feature_points(2, 16);
    assert_ne!(a, b);
}

#[test]
fn feature_points_empty_count() {
    let pts = generate_feature_points(1, 0);
    assert_eq!(pts.len(), 0);
}

#[test]
fn bake_deterministic() {
    let params = default_params();
    let a = bake(&params).unwrap();
    let b = bake(&params).unwrap();
    assert_eq!(a.data, b.data);
    assert_eq!(a.resolution, b.resolution);
}

#[test]
fn bake_default_scenario() {
    let params = default_params();
    assert_eq!(params.seed, 1);
    assert_eq!(params.frequency_fp, 1024);
    assert_eq!(params.feature_point_count, 16);
    assert_eq!(params.resolution, 32);
    let v1 = bake(&params).unwrap();
    assert_eq!(v1.data.len(), 32768);

    let params2 = GenerationParameters { seed: 2, ..params };
    let v2 = bake(&params2).unwrap();
    assert_eq!(v2.data.len(), 32768);
    assert!(v1.data.iter().zip(v2.data.iter()).any(|(a, b)| a != b));
}

#[test]
fn bake_zero_points_gives_zero_volume() {
    let params = GenerationParameters { feature_point_count: 0, ..default_params() };
    let v = bake(&params).unwrap();
    assert_eq!(v.data.len(), 32768);
    assert!(v.data.iter().all(|&b| b == 0));
}

#[test]
fn bake_rejects_zero_frequency() {
    let params = GenerationParameters { frequency_fp: 0, ..default_params() };
    assert!(matches!(bake(&params), Err(NoiseError::InvalidParameter)));
}

#[test]
fn bake_rejects_zero_resolution() {
    let params = GenerationParameters { resolution: 0, ..default_params() };
    assert!(matches!(bake(&params), Err(NoiseError::InvalidParameter)));
}

#[test]
fn bake_rejects_oversized_resolution() {
    let params = GenerationParameters { resolution: RESOLUTION_MAX + 1, ..default_params() };
    assert!(matches!(bake(&params), Err(NoiseError::InvalidParameter)));
}

#[test]
fn bake_volume_is_not_flat_for_defaults() {
    let v = bake(&default_params()).unwrap();
    let first = v.data[0];
    assert!(v.data.iter().any(|&b| b != first));
}

#[test]
fn density_empty_points_is_zero() {
    let pts: Vec<Point> = Vec::new();
    let p = Point { x: 123, y: 456, z: 789 };
    assert_eq!(density_at(&p, &pts, 1024), 0);
}

#[test]
fn density_within_unit_range() {
    let pts = generate_feature_points(3, 16);
    for i in 0..8u32 {
        let p = Point { x: i * 8192, y: (7 - i) * 8192, z: i * 4096 };
        let d = density_at(&p, &pts, 2560);
        assert!(d <= DENSITY_SCALE);
    }
}

#[test]
fn density_is_one_at_a_feature_point() {
    // A sample lying exactly on a feature point has distance zero, so the
    // density is exactly DENSITY_SCALE (that is, 1.0).
    let pts = vec![Point { x: 100, y: 200, z: 300 }];
    let p = Point { x: 100, y: 200, z: 300 };
    assert_eq!(density_at(&p, &pts, 1024), DENSITY_SCALE);
}

#[test]
fn tiling_no_seam_across_faces() {
    let pts = generate_feature_points(5, 16);
    for freq in [256u32, 1024, 2560] {
        for a in [0u32, 9000, 33333, 65000] {
            for b in [0u32, 21000, 48000] {
                let x0 = density_at(&Point { x: 0, y: a, z: b }, &pts, freq);
                let x1 = density_at(&Point { x: COORD_SCALE, y: a, z: b }, &pts, freq);
                assert_eq!(x0, x1);
                let y0 = density_at(&Point { x: a, y: 0, z: b }, &pts, freq);
                let y1 = density_at(&Point { x: a, y: COORD_SCALE, z: b }, &pts, freq);
                assert_eq!(y0, y1);
                let z0 = density_at(&Point { x: a, y: b, z: 0 }, &pts, freq);
                let z1 = density_at(&Point { x: a, y: b, z: COORD_SCALE }, &pts, freq);
                assert_eq!(z0, z1);
            }
        }
    }
}

#[test]
fn isqrt_exact_values() {
    assert_eq!(isqrt(0), 0);
    assert_eq!(isqrt(1), 1);
    assert_eq!(isqrt(3), 1);
    assert_eq!(isqrt(4), 2);
    assert_eq!(isqrt(999999), 999);
    assert_eq!(isqrt(1000000), 1000);
    assert_eq!(isqrt(u64::MAX), 4294967295);
}

#[test]
fn quantize_exact_values() {
    assert_eq!(quantize(0), 0);
    assert_eq!(quantize(DENSITY_SCALE), 255);
    // Half density rounds to 255 * 0.5 + 0.5 = 128.
    assert_eq!(quantize(DENSITY_SCALE / 2), 128);
}
