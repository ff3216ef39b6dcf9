//! Axis-spacing behaviour: decade values, monotonicity, minor-tier ratios
//! and centre snapping, all in micro-units (1 world unit = 1_000_000).

use grapher::axis_spacing::mid_axis_diff;
use grapher::axis_spacing::mid_axis_count;
use grapher::axis_spacing::round_to_step;
use grapher::axis_spacing::recalculate_mid_axis_info;
use grapher::scaling::Bounds;
use grapher::scaling::GraphingBounds;
use grapher::scaling::GraphingView;

#[test]
fn mid_axis_diff_decade_examples() {
    // scale 5.0 -> spacing 1.0; scale 50.0 -> spacing 10.0
    assert_eq!(mid_axis_diff(5_000_000), 1_000_000);
    assert_eq!(mid_axis_diff(50_000_000), 10_000_000);
    // a sweep through the decades
    assert_eq!(mid_axis_diff(500_000_000), 100_000_000);
    // the buckets are powers of two, so small scales land on the halves
    assert_eq!(mid_axis_diff(5_000), 500);
    // the default scale itself
    assert_eq!(mid_axis_diff(grapher::DEFAULT_SCALE), 1_000_000);
}

#[test]
fn mid_axis_diff_values_stay_in_decade_set() {
    let mut scale: i64 = grapher::MIN_SCALE;
    while scale <= grapher::MAX_SCALE {
        let sep = mid_axis_diff(scale);
        // strip trailing powers of ten, the mantissa must be 1, 2 or 5
        let mut mantissa = sep;
        while mantissa % 10 == 0 {
            mantissa /= 10;
        }
        assert!(
            mantissa == 1 || mantissa == 2 || mantissa == 5,
            "spacing {sep} at scale {scale} is not a decade value"
        );
        assert_eq!(sep % 5, 0);
        scale = scale.saturating_mul(3);
    }
}

#[test]
fn mid_axis_diff_is_monotone_in_scale() {
    let mut prev = mid_axis_diff(grapher::MIN_SCALE);
    let mut scale: i64 = grapher::MIN_SCALE;
    while scale <= grapher::MAX_SCALE {
        let sep = mid_axis_diff(scale);
        assert!(sep >= prev, "spacing shrank from {prev} to {sep} at scale {scale}");
        prev = sep;
        scale += 1 + scale / 7;
    }
}

#[test]
fn mid_axis_count_counts_one_side_plus_one() {
    let xbounds = Bounds { start: -10_000_000, end: 10_000_000 };
    let ybounds = Bounds { start: -5_000_000, end: 5_000_000 };
    let (xc, yc) = mid_axis_count(xbounds, ybounds, 1_000_000);
    // extent / (2 * separation) + 1
    assert_eq!(xc, 11);
    assert_eq!(yc, 6);
}

#[test]
fn round_to_step_snaps_to_nearest_multiple() {
    let sep = 1_000_000;
    assert_eq!(round_to_step(2_300_000, sep), 2_000_000);
    assert_eq!(round_to_step(2_500_000, sep), 3_000_000); // ties away from zero
    assert_eq!(round_to_step(-2_500_000, sep), -3_000_000);
    assert_eq!(round_to_step(-2_300_000, sep), -2_000_000);
    assert_eq!(round_to_step(0, sep), 0);
    assert_eq!(round_to_step(499_999, sep), 0);
    assert_eq!(round_to_step(500_000, sep), 1_000_000);
}

#[test]
fn minor_tier_is_exactly_a_fifth_at_five_times_the_count() {
    let view = GraphingView { centre_x: 300_000, centre_y: -1_700_000, scale: 5_000_000 };
    let bounds = GraphingBounds {
        xbounds: Bounds { start: -9_700_000, end: 10_300_000 },
        ybounds: Bounds { start: -11_700_000, end: 8_300_000 },
    };
    let mid = recalculate_mid_axis_info(&bounds, &view);
    assert_eq!(mid.separation, 1_000_000);
    let min = mid.calculate_min_axis_info();
    assert_eq!(min.separation * 5, mid.separation);
    assert_eq!(min.xline_count, 5 * mid.xline_count);
    assert_eq!(min.yline_count, 5 * mid.yline_count);
    assert_eq!(min.rounded_xcentre, mid.rounded_xcentre);
    assert_eq!(min.rounded_ycentre, mid.rounded_ycentre);
}

#[test]
fn minor_tier_ratio_holds_across_scales() {
    let mut scale: i64 = grapher::MIN_SCALE;
    while scale <= grapher::MAX_SCALE {
        let view = GraphingView { centre_x: 0, centre_y: 0, scale };
        let half = 2 * scale;
        let bounds = GraphingBounds {
            xbounds: Bounds { start: -half, end: half },
            ybounds: Bounds { start: -half, end: half },
        };
        let mid = recalculate_mid_axis_info(&bounds, &view);
        let min = mid.calculate_min_axis_info();
        assert_eq!(min.separation * 5, mid.separation, "at scale {scale}");
        assert_eq!(min.xline_count, 5 * mid.xline_count, "at scale {scale}");
        assert_eq!(min.yline_count, 5 * mid.yline_count, "at scale {scale}");
        scale = scale.saturating_mul(10);
    }
}
