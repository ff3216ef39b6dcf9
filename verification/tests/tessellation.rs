//! Curve tessellation: sample grids, finite-difference normals and the
//! ribbon buffers, in micro-units (1 world unit = 1_000_000).

use grapher::gen_expr_mesh::TessellationError;
use grapher::gen_expr_mesh::clamp_value;
use grapher::gen_expr_mesh::gen_expr_mesh;
use grapher::gen_expr_mesh::normals;
use grapher::gen_expr_mesh::sample_xs;
use grapher::scaling::Bounds;

const UNIT_SQ: i64 = 1_000_000_000_000;
const TOLERANCE: i64 = 5_000_000;

#[test]
fn sample_xs_spans_the_interval_evenly() {
    let b = Bounds { start: -10_000_000, end: 10_000_000 };
    let xs = sample_xs(&b, 256);
    assert_eq!(xs.len(), 256);
    let dx = 20_000_000 / 256;
    for (i, x) in xs.iter().enumerate() {
        assert_eq!(*x, -10_000_000 + i as i64 * dx);
    }
}

#[test]
fn flat_samples_get_exactly_vertical_normals() {
    // zero slope: every normal must be exactly (0, 1)
    let values = vec![7_000_000i64; 64];
    let ns = normals(&values, 78_125);
    assert_eq!(ns.len(), 64);
    for n in ns.iter() {
        assert_eq!(*n, (0, 1_000_000));
    }
}

#[test]
fn normal_array_matches_sample_count_and_duplicates_the_last() {
    let values: Vec<i64> = (0..100).map(|i| (i as i64) * 137_000 - 3_000_000).collect();
    let ns = normals(&values, 200_000);
    assert_eq!(ns.len(), values.len());
    assert_eq!(ns[99], ns[98]);
}

#[test]
fn normals_have_unit_magnitude_within_tolerance() {
    // a mix of gentle and violent slopes
    let values: Vec<i64> = (0..50)
        .map(|i| {
            let i = i as i64;
            (i * i * i) * 91_000 - i * 40_000_000
        })
        .collect();
    let ns = normals(&values, 400_000);
    for (i, (nx, ny)) in ns.iter().enumerate() {
        let mag2 = nx * nx + ny * ny;
        assert!(
            (UNIT_SQ - TOLERANCE..=UNIT_SQ + TOLERANCE).contains(&mag2),
            "normal {i} has squared magnitude {mag2}"
        );
        assert!(*ny >= 0);
    }
}

#[test]
fn normals_point_against_the_slope() {
    let rising = vec![0i64, 1_000_000, 2_000_000];
    let ns = normals(&rising, 1_000_000);
    assert!(ns[0].0 < 0);
    // a 45-degree slope: both components near 1/sqrt(2)
    let nx = ns[0].0;
    let ny = ns[0].1;
    assert!((nx + 707_107).abs() <= 2, "nx was {nx}");
    assert!((ny - 707_106).abs() <= 2, "ny was {ny}");
    let falling = vec![2_000_000i64, 1_000_000, 0];
    let ns = normals(&falling, 1_000_000);
    assert!(ns[0].0 > 0);
}

#[test]
fn ribbon_buffers_have_two_slots_per_sample() {
    let b = Bounds { start: -10_000_000, end: 10_000_000 };
    let xs = sample_xs(&b, 256);
    // the curve y = x
    let values: Vec<i64> = xs.clone();
    let mesh = gen_expr_mesh(&values, &b).unwrap();
    assert_eq!(mesh.positions.len(), 512);
    assert_eq!(mesh.normals.len(), 512);
    assert_eq!(mesh.indices.len(), 512);
    // the index buffer is the contiguous range [0, 2R)
    for (k, ix) in mesh.indices.iter().enumerate() {
        assert_eq!(*ix as usize, k);
    }
    // vertex pairs straddle the sample point
    let dx = 20_000_000 / 256;
    for i in 0..256usize {
        let p0 = mesh.positions[2 * i];
        let p1 = mesh.positions[2 * i + 1];
        let x = -10_000_000 + i as i64 * dx;
        assert_eq!(p0.x + p1.x, 2 * x);
        assert_eq!(p0.y + p1.y, 2 * values[i]);
        assert_eq!(p0.z, 0);
        assert_eq!(p1.z, 0);
        // opposite normals on the two slots
        let n0 = mesh.normals[2 * i];
        let n1 = mesh.normals[2 * i + 1];
        assert_eq!(n0.x, -n1.x);
        assert_eq!(n0.y, -n1.y);
    }
}

#[test]
fn flat_ribbon_offsets_by_exactly_the_half_width() {
    let b = Bounds { start: 0, end: 2_560_000 };
    let values = vec![500_000i64; 256];
    let mesh = gen_expr_mesh(&values, &b).unwrap();
    // flat curve: normal (0, 1), so vertices sit half-width above and below
    assert_eq!(mesh.positions[0].y, 500_000 + grapher::HALF_WIDTH);
    assert_eq!(mesh.positions[1].y, 500_000 - grapher::HALF_WIDTH);
    assert_eq!(mesh.positions[0].x, 0);
    assert_eq!(mesh.positions[1].x, 0);
}

#[test]
fn tessellation_rejects_degenerate_batches() {
    let b = Bounds { start: -10_000_000, end: 10_000_000 };
    let one = vec![0i64];
    assert_eq!(gen_expr_mesh(&one, &b), Err(TessellationError::InvalidSampleCount));
    let none: Vec<i64> = Vec::new();
    assert_eq!(gen_expr_mesh(&none, &b), Err(TessellationError::InvalidSampleCount));
    // 256 samples across a 100-micro-unit interval: the step collapses
    let narrow = Bounds { start: 0, end: 100 };
    let values = vec![0i64; 256];
    assert_eq!(gen_expr_mesh(&values, &narrow), Err(TessellationError::DegenerateBounds));
}

#[test]
fn wild_samples_are_clamped_before_normal_estimation() {
    assert_eq!(clamp_value(i64::MAX), grapher::VALUE_LIMIT);
    assert_eq!(clamp_value(i64::MIN), -grapher::VALUE_LIMIT);
    assert_eq!(clamp_value(42), 42);
    let b = Bounds { start: 0, end: 2_560_000 };
    let mut values = vec![0i64; 256];
    values[128] = i64::MAX; // a non-finite evaluator result mapped to the band edge by the host
    let mesh = gen_expr_mesh(&values, &b).unwrap();
    // the cliff is vertical, so the sample's normal is horizontal and the
    // clamped peak sits exactly at the band edge
    assert_eq!(mesh.positions[256].y, grapher::VALUE_LIMIT);
    assert_eq!(mesh.positions[257].y, grapher::VALUE_LIMIT);
}
