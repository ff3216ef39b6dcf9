//! The axis-spacing engine: picks a "nice" world-space gridline spacing for
//! a zoom scale, independent of pan position, on a 1-2-5 decade scheme.
//!
//! The scheme follows the classical base-2/base-5 decomposition: an integer
//! exponent bucket `l2` with `2^(l2-1) <= scale/10 < 2^l2`, a five-bucket
//! `l5 = floor((l2+1)/3)`, and a spacing `2^(l2-2*l5) * 5^l5`. Every value
//! it produces lies in the decade set `{1, 2, 5} * 10^k`; in micro-units
//! all of them are integers divisible by five, which is what makes the
//! minor tier's `separation / 5` exact.
//!
//! The bucket is written below as the index `j = l2 + 16`, so that all
//! exponents stay natural numbers over the whole clamped scale range.

use vstd::prelude::*;
use vstd::arithmetic::power::pow;
use crate::COORD_LIMIT;
use crate::MAX_SCALE;
use crate::MAX_WINDOW_DIM;
use crate::MIN_SCALE;
use crate::MIN_WINDOW_DIM;
use crate::scaling::Bounds;
use crate::scaling::GraphingBounds;
use crate::scaling::GraphingView;
use crate::scaling::WindowSize;
use crate::scaling::spec_recalculate_graphing_bounds;

verus! {

/// Derived spacing data, cached alongside the generation bounds and
/// recomputed in lock-step with them: the mid-tier gridline spacing, the
/// per-axis line counts on one side of the bounds centre, and the view
/// centre snapped to the nearest spacing multiple.
#[derive(Clone, Copy, Debug, PartialEq, Eq, Structural)]
pub struct MidAxisInfo {
    pub separation: i64,
    pub xline_count: usize,
    pub yline_count: usize,
    pub rounded_xcentre: i64,
    pub rounded_ycentre: i64,
}

/// The minor tier reuses the mid-tier shape at a fifth of the spacing.
pub type MinAxisInfo = MidAxisInfo;

/// Finds the exponent bucket of `s17 = scale * 2^17`: the smallest `j`
/// with `s17 < 2^(j+1) * 10^7`, capped at 33.
pub open spec fn spec_axis_index_search(s17: int, j: nat) -> nat
    decreases 33 - j,
{
    if j >= 33 {
        33
    } else if s17 < pow(2, (j + 1) as nat) * 10_000_000 {
        j
    } else {
        spec_axis_index_search(s17, (j + 1) as nat)
    }
}

/// The exponent bucket of a scale: `j` such that, in world units,
/// `2^(j-17) <= scale/10 < 2^(j-16)`.
pub open spec fn spec_axis_index(scale: int) -> nat {
    spec_axis_index_search(scale * pow(2, 17), 0)
}

/// The mid-tier spacing of bucket `j`, in micro-units: with
/// `q = (j+3)/3` and `r = (j+3)%3`, the value `2^(q+r-1) * 5^q`, which is
/// `5*10^(q-1)`, `10^q` or `2*10^q` as `r` is 0, 1 or 2.
pub open spec fn spec_sep_at(j: nat) -> int {
    let q = (j + 3) as int / 3;
    let r = (j + 3) as int % 3;
    pow(2, (q + r - 1) as nat) * pow(5, q as nat)
}

/// The mid-tier gridline spacing for a zoom scale, in micro-units.
pub open spec fn spec_mid_axis_diff(scale: int) -> int {
    spec_sep_at(spec_axis_index(scale))
}

/// A value of the 1-2-5 decade set, in micro-units.
pub open spec fn in_decade_set(v: int) -> bool {
    exists|k: nat|
        v == #[trigger] pow(10, k) || v == 2 * pow(10, k) || v == 5 * pow(10, k)
}

/// Whether spacing information is exactly what recomputation from these
/// generation bounds and this view yields: the lock-step consistency the
/// engine maintains.
pub open spec fn spec_info_matches(info: MidAxisInfo, bounds: GraphingBounds, view: GraphingView) -> bool {
    &&& info.separation == spec_mid_axis_diff(view.scale as int)
    &&& info.xline_count == bounds.xbounds.spec_extent() / (2 * info.separation as int) + 1
    &&& info.yline_count == bounds.ybounds.spec_extent() / (2 * info.separation as int) + 1
    &&& info.rounded_xcentre == spec_round_to_step(view.centre_x as int, info.separation as int)
    &&& info.rounded_ycentre == spec_round_to_step(view.centre_y as int, info.separation as int)
}

/// The minor tier's spacing information: a fifth of the spacing, five
/// times the counts, the same snapped centres.
pub open spec fn spec_min_axis_info(info: MidAxisInfo) -> MidAxisInfo {
    MidAxisInfo {
        separation: (info.separation as int / 5) as i64,
        xline_count: (5 * info.xline_count) as usize,
        yline_count: (5 * info.yline_count) as usize,
        rounded_xcentre: info.rounded_xcentre,
        rounded_ycentre: info.rounded_ycentre,
    }
}

/// `centre` snapped to the nearest multiple of `separation`, ties rounded
/// away from zero.
pub open spec fn spec_round_to_step(centre: int, separation: int) -> int {
    let m = if centre >= 0 {
        centre
    } else {
        -centre
    };
    let q = (2 * m + separation) / (2 * separation);
    if centre >= 0 {
        q * separation
    } else {
        -(q * separation)
    }
}

/// Concrete powers of five, read off the recursive definition.
proof fn lemma_pow5_table()
    ensures
        pow(5, 0) == 1,
        pow(5, 1) == 5,
        pow(5, 2) == 25,
        pow(5, 3) == 125,
        pow(5, 4) == 625,
        pow(5, 5) == 3125,
        pow(5, 6) == 15625,
        pow(5, 7) == 78125,
        pow(5, 8) == 390625,
        pow(5, 9) == 1953125,
        pow(5, 10) == 9765625,
        pow(5, 11) == 48828125,
        pow(5, 12) == 244140625,
        pow(5, 13) == 1220703125,
{
    reveal(pow);
    vstd::arithmetic::power::lemma_pow0(5);
    assert(pow(5, 1) == 5 * pow(5, 0));
    assert(pow(5, 2) == 5 * pow(5, 1));
    assert(pow(5, 3) == 5 * pow(5, 2));
    assert(pow(5, 4) == 5 * pow(5, 3));
    assert(pow(5, 5) == 5 * pow(5, 4));
    assert(pow(5, 6) == 5 * pow(5, 5));
    assert(pow(5, 7) == 5 * pow(5, 6));
    assert(pow(5, 8) == 5 * pow(5, 7));
    assert(pow(5, 9) == 5 * pow(5, 8));
    assert(pow(5, 10) == 5 * pow(5, 9));
    assert(pow(5, 11) == 5 * pow(5, 10));
    assert(pow(5, 12) == 5 * pow(5, 11));
    assert(pow(5, 13) == 5 * pow(5, 12));
}

/// Concrete powers of ten, read off the recursive definition.
proof fn lemma_pow10_table()
    ensures
        pow(10, 0) == 1,
        pow(10, 1) == 10,
        pow(10, 2) == 100,
        pow(10, 3) == 1000,
        pow(10, 4) == 10000,
        pow(10, 5) == 100000,
        pow(10, 6) == 1000000,
        pow(10, 7) == 10000000,
        pow(10, 8) == 100000000,
        pow(10, 9) == 1000000000,
        pow(10, 10) == 10000000000,
        pow(10, 11) == 100000000000,
        pow(10, 12) == 1000000000000,
{
    reveal(pow);
    vstd::arithmetic::power::lemma_pow0(10);
    assert(pow(10, 1) == 10 * pow(10, 0));
    assert(pow(10, 2) == 10 * pow(10, 1));
    assert(pow(10, 3) == 10 * pow(10, 2));
    assert(pow(10, 4) == 10 * pow(10, 3));
    assert(pow(10, 5) == 10 * pow(10, 4));
    assert(pow(10, 6) == 10 * pow(10, 5));
    assert(pow(10, 7) == 10 * pow(10, 6));
    assert(pow(10, 8) == 10 * pow(10, 7));
    assert(pow(10, 9) == 10 * pow(10, 8));
    assert(pow(10, 10) == 10 * pow(10, 9));
    assert(pow(10, 11) == 10 * pow(10, 10));
    assert(pow(10, 12) == 10 * pow(10, 11));
}

/// Concrete powers of two used by the bucket search.
proof fn lemma_pow2_search_constants()
    ensures
        pow(2, 0) == 1,
        pow(2, 1) == 2,
        pow(2, 17) == 131072,
        pow(2, 34) == 17179869184,
{
    vstd::arithmetic::power2::lemma2_to64();
    vstd::arithmetic::power2::lemma2_to64_rest();
    vstd::arithmetic::power2::lemma_pow2(0);
    vstd::arithmetic::power2::lemma_pow2(1);
    vstd::arithmetic::power2::lemma_pow2(17);
    vstd::arithmetic::power2::lemma_pow2(34);
}

/// The search from any point at or below the bracketed bucket lands on it.
proof fn lemma_search_bracket(s17: int, i: nat)
    requires
        i <= 33,
        pow(2, i) * 10_000_000 <= s17,
        s17 < pow(2, 34) * 10_000_000,
    ensures
        ({
            let j = spec_axis_index_search(s17, i);
            &&& i <= j <= 33
            &&& pow(2, j) * 10_000_000 <= s17
            &&& s17 < pow(2, (j + 1) as nat) * 10_000_000
        }),
    decreases 33 - i,
{
    if i >= 33 {
    } else if s17 < pow(2, (i + 1) as nat) * 10_000_000 {
    } else {
        lemma_search_bracket(s17, (i + 1) as nat);
    }
}

/// A bucket bracketed between consecutive powers of two is unique.
proof fn lemma_bracket_unique(s17: int, j1: nat, j2: nat)
    requires
        pow(2, j1) * 10_000_000 <= s17 < pow(2, (j1 + 1) as nat) * 10_000_000,
        pow(2, j2) * 10_000_000 <= s17 < pow(2, (j2 + 1) as nat) * 10_000_000,
    ensures
        j1 == j2,
{
    assert(pow(2, j1) * 10_000_000 < pow(2, (j2 + 1) as nat) * 10_000_000);
    assert(pow(2, j1) < pow(2, (j2 + 1) as nat)) by (nonlinear_arith)
        requires
            pow(2, j1) * 10_000_000 < pow(2, (j2 + 1) as nat) * 10_000_000,
    ;
    vstd::arithmetic::power::lemma_pow_strictly_increases_converse(2, j1, (j2 + 1) as nat);
    assert(pow(2, j2) < pow(2, (j1 + 1) as nat)) by (nonlinear_arith)
        requires
            pow(2, j2) * 10_000_000 < pow(2, (j1 + 1) as nat) * 10_000_000,
    ;
    vstd::arithmetic::power::lemma_pow_strictly_increases_converse(2, j2, (j1 + 1) as nat);
}

/// The functional bucket of a clamped scale is bracketed between
/// consecutive powers of two and stays within the 34 buckets.
proof fn lemma_axis_index_bracket(scale: int)
    requires
        MIN_SCALE <= scale <= MAX_SCALE,
    ensures
        ({
            let j = spec_axis_index(scale);
            &&& j <= 33
            &&& pow(2, j) * 10_000_000 <= scale * pow(2, 17)
            &&& scale * pow(2, 17) < pow(2, (j + 1) as nat) * 10_000_000
        }),
{
    lemma_pow2_search_constants();
    lemma_search_bracket(scale * pow(2, 17), 0);
}

/// The 1-2-5 shape of a bucket's spacing: `5*10^(q-1)`, `10^q` or
/// `2*10^q` by the residue of `j+3` modulo three.
proof fn lemma_sep_at_form(j: nat)
    ensures
        ({
            let q = (j + 3) as int / 3;
            let r = (j + 3) as int % 3;
            &&& 1 <= q
            &&& 0 <= r < 3
            &&& (r == 0 ==> spec_sep_at(j) == 5 * pow(10, (q - 1) as nat))
            &&& (r == 1 ==> spec_sep_at(j) == pow(10, q as nat))
            &&& (r == 2 ==> spec_sep_at(j) == 2 * pow(10, q as nat))
        }),
{
    reveal(pow);
    let q = (j + 3) as int / 3;
    let r = (j + 3) as int % 3;
    vstd::arithmetic::div_mod::lemma_fundamental_div_mod((j + 3) as int, 3);
    vstd::arithmetic::div_mod::lemma_div_is_ordered(3, (j + 3) as int, 3);
    vstd::arithmetic::div_mod::lemma_mod_bound((j + 3) as int, 3);
    assert(q >= 1);
    vstd::arithmetic::power::lemma_pow_distributes(2, 5, (q - 1) as nat);
    vstd::arithmetic::power::lemma_pow_distributes(2, 5, q as nat);
    if r == 0 {
        assert(pow(5, q as nat) == 5 * pow(5, (q - 1) as nat));
        assert(pow(2, (q - 1) as nat) * (5 * pow(5, (q - 1) as nat)) == 5 * (pow(
            2,
            (q - 1) as nat,
        ) * pow(5, (q - 1) as nat))) by (nonlinear_arith);
    } else if r == 1 {
        assert(spec_sep_at(j) == pow(2, q as nat) * pow(5, q as nat));
    } else {
        assert(pow(2, (q + 1) as nat) == 2 * pow(2, q as nat));
        assert((2 * pow(2, q as nat)) * pow(5, q as nat) == 2 * (pow(2, q as nat) * pow(
            5,
            q as nat,
        ))) by (nonlinear_arith);
    }
}

/// Every bucket's spacing is a positive decade value, divisible by five,
/// at least 5 micro-units, and within `5 * 10^11` for the 34 buckets.
proof fn lemma_sep_at_decade(j: nat)
    requires
        j <= 33,
    ensures
        in_decade_set(spec_sep_at(j)),
        spec_sep_at(j) % 5 == 0,
        5 <= spec_sep_at(j) <= 500_000_000_000,
{
    reveal(pow);
    let q = (j + 3) as int / 3;
    let r = (j + 3) as int % 3;
    lemma_sep_at_form(j);
    lemma_pow10_table();
    vstd::arithmetic::div_mod::lemma_fundamental_div_mod((j + 3) as int, 3);
    vstd::arithmetic::div_mod::lemma_div_is_ordered((j + 3) as int, 36, 3);
    assert(q <= 12);
    vstd::arithmetic::power::lemma_pow_positive(10, (q - 1) as nat);
    vstd::arithmetic::power::lemma_pow_increases(10, (q - 1) as nat, 11);
    if r == 0 {
        let k = (q - 1) as nat;
        assert(spec_sep_at(j) == 5 * pow(10, k));
        assert(in_decade_set(spec_sep_at(j)));
        vstd::arithmetic::div_mod::lemma_mod_multiples_basic(pow(10, k), 5);
        assert(pow(10, k) * 5 == 5 * pow(10, k)) by (nonlinear_arith);
    } else {
        // for r of 1 or 2 the exact division by three forces q <= 11
        assert(3 * q + r == j + 3);
        assert(q <= 11);
        vstd::arithmetic::power::lemma_pow_increases(10, q as nat, 11);
        vstd::arithmetic::power::lemma_pow_positive(10, q as nat);
        assert(pow(10, q as nat) == 10 * pow(10, (q - 1) as nat));
        let h = pow(10, (q - 1) as nat);
        if r == 1 {
            assert(spec_sep_at(j) == pow(10, q as nat));
            assert(in_decade_set(spec_sep_at(j)));
            assert((2 * h) * 5 == 10 * h) by (nonlinear_arith);
            vstd::arithmetic::div_mod::lemma_mod_multiples_basic(2 * h, 5);
            vstd::arithmetic::power::lemma_pow_increases(10, 1, q as nat);
        } else {
            assert(spec_sep_at(j) == 2 * pow(10, q as nat));
            assert(in_decade_set(spec_sep_at(j)));
            assert((4 * h) * 5 == 2 * (10 * h)) by (nonlinear_arith);
            vstd::arithmetic::div_mod::lemma_mod_multiples_basic(4 * h, 5);
            vstd::arithmetic::power::lemma_pow_increases(10, 1, q as nat);
        }
    }
}

/// Stepping one bucket up never shrinks the spacing.
proof fn lemma_sep_at_step(j: nat)
    ensures
        spec_sep_at(j) <= spec_sep_at((j + 1) as nat),
{
    reveal(pow);
    let q = (j + 3) as int / 3;
    let r = (j + 3) as int % 3;
    vstd::arithmetic::div_mod::lemma_fundamental_div_mod((j + 3) as int, 3);
    vstd::arithmetic::div_mod::lemma_div_is_ordered(3, (j + 3) as int, 3);
    vstd::arithmetic::div_mod::lemma_mod_bound((j + 3) as int, 3);
    vstd::arithmetic::power::lemma_pow_positive(2, (q + r - 1) as nat);
    vstd::arithmetic::power::lemma_pow_positive(5, q as nat);
    if r < 2 {
        vstd::arithmetic::div_mod::lemma_fundamental_div_mod_converse((j + 4) as int, 3, q, r + 1);
        assert(spec_sep_at((j + 1) as nat) == pow(2, (q + r) as nat) * pow(5, q as nat));
        assert(pow(2, (q + r) as nat) == 2 * pow(2, (q + r - 1) as nat));
        assert((2 * pow(2, (q + r - 1) as nat)) * pow(5, q as nat) >= pow(2, (q + r - 1) as nat)
            * pow(5, q as nat)) by (nonlinear_arith)
            requires
                pow(2, (q + r - 1) as nat) > 0,
                pow(5, q as nat) > 0,
        ;
    } else {
        vstd::arithmetic::div_mod::lemma_fundamental_div_mod_converse((j + 4) as int, 3, q + 1, 0);
        assert(spec_sep_at((j + 1) as nat) == pow(2, q as nat) * pow(5, (q + 1) as nat));
        assert(pow(2, (q + 1) as nat) == 2 * pow(2, q as nat));
        assert(pow(5, (q + 1) as nat) == 5 * pow(5, q as nat));
        assert((2 * pow(2, q as nat)) * pow(5, q as nat) <= pow(2, q as nat) * (5 * pow(
            5,
            q as nat,
        ))) by (nonlinear_arith)
            requires
                pow(2, q as nat) > 0,
                pow(5, q as nat) > 0,
        ;
    }
}

/// Spacing grows monotonically with the bucket.
proof fn lemma_sep_at_monotonic(j1: nat, j2: nat)
    requires
        j1 <= j2,
    ensures
        spec_sep_at(j1) <= spec_sep_at(j2),
    decreases j2 - j1,
{
    if j1 < j2 {
        lemma_sep_at_step(j1);
        lemma_sep_at_monotonic((j1 + 1) as nat, j2);
    }
}

/// The mid-tier spacing is monotonically non-decreasing in the zoom scale:
/// zooming out never tightens the grid.
pub proof fn lemma_mid_axis_diff_monotonic(scale1: int, scale2: int)
    requires
        MIN_SCALE <= scale1 <= scale2 <= MAX_SCALE,
    ensures
        spec_mid_axis_diff(scale1) <= spec_mid_axis_diff(scale2),
{
    lemma_pow2_search_constants();
    vstd::arithmetic::power::lemma_pow_positive(2, 17);
    lemma_axis_index_bracket(scale1);
    lemma_axis_index_bracket(scale2);
    let j1 = spec_axis_index(scale1);
    let j2 = spec_axis_index(scale2);
    vstd::arithmetic::mul::lemma_mul_inequality(scale1, scale2, pow(2, 17));
    assert(pow(2, j1) * 10_000_000 < pow(2, (j2 + 1) as nat) * 10_000_000);
    assert(pow(2, j1) < pow(2, (j2 + 1) as nat)) by (nonlinear_arith)
        requires
            pow(2, j1) * 10_000_000 < pow(2, (j2 + 1) as nat) * 10_000_000,
    ;
    vstd::arithmetic::power::lemma_pow_strictly_increases_converse(2, j1, (j2 + 1) as nat);
    lemma_sep_at_monotonic(j1, j2);
}

/// The mid-tier spacing always lies in the 1-2-5 decade set, is divisible
/// by five (so the minor tier's `separation / 5` is exact), and sits in
/// `[5, 5 * 10^11]` micro-units over the whole clamped scale range.
pub proof fn lemma_mid_axis_diff_decade(scale: int)
    requires
        MIN_SCALE <= scale <= MAX_SCALE,
    ensures
        in_decade_set(spec_mid_axis_diff(scale)),
        spec_mid_axis_diff(scale) % 5 == 0,
        5 <= spec_mid_axis_diff(scale) <= 500_000_000_000,
{
    lemma_axis_index_bracket(scale);
    lemma_sep_at_decade(spec_axis_index(scale));
}

/// Powers of five dominate the matching even powers of two.
proof fn lemma_pow5_ge_pow2_twice(k: nat)
    ensures
        pow(5, k) >= pow(2, 2 * k),
        pow(5, k) > 0,
    decreases k,
{
    reveal(pow);
    if k == 0 {
    } else {
        lemma_pow5_ge_pow2_twice((k - 1) as nat);
        assert(pow(5, k) == 5 * pow(5, (k - 1) as nat));
        assert(pow(2, 2 * k) == 2 * pow(2, (2 * k - 1) as nat));
        assert(pow(2, (2 * k - 1) as nat) == 2 * pow(2, (2 * k - 2) as nat));
        assert(5 * pow(5, (k - 1) as nat) >= 4 * pow(2, (2 * (k - 1)) as nat)) by (nonlinear_arith)
            requires
                pow(5, (k - 1) as nat) >= pow(2, (2 * (k - 1)) as nat),
                pow(5, (k - 1) as nat) > 0,
        ;
        assert(2 * (k - 1) == 2 * k - 2);
    }
}

/// Each bucket's spacing is at least five times that bucket's power of
/// two, which ties the spacing to the scale from below.
proof fn lemma_sep_at_lower(j: nat)
    ensures
        spec_sep_at(j) >= 5 * pow(2, j),
{
    reveal(pow);
    let q = (j + 3) as int / 3;
    let r = (j + 3) as int % 3;
    vstd::arithmetic::div_mod::lemma_fundamental_div_mod((j + 3) as int, 3);
    vstd::arithmetic::div_mod::lemma_div_is_ordered(3, (j + 3) as int, 3);
    vstd::arithmetic::div_mod::lemma_mod_bound((j + 3) as int, 3);
    assert(q >= 1 && 0 <= r < 3);
    assert(j == 3 * q + r - 3);
    lemma_pow5_ge_pow2_twice((q - 1) as nat);
    assert(pow(5, q as nat) == 5 * pow(5, (q - 1) as nat));
    vstd::arithmetic::power::lemma_pow_adds(2, (q + r - 1) as nat, (2 * (q - 1)) as nat);
    assert((q + r - 1) + 2 * (q - 1) == 3 * q + r - 3);
    vstd::arithmetic::power::lemma_pow_positive(2, (q + r - 1) as nat);
    assert(pow(2, (q + r - 1) as nat) * (5 * pow(5, (q - 1) as nat)) >= 5 * (pow(
        2,
        (q + r - 1) as nat,
    ) * pow(2, (2 * (q - 1)) as nat))) by (nonlinear_arith)
        requires
            pow(5, (q - 1) as nat) >= pow(2, (2 * (q - 1)) as nat),
            pow(2, (q + r - 1) as nat) > 0,
    ;
}

/// The spacing never falls below a thirty-first of the scale: the grid can
/// hold at most about sixty mid-tier lines across the generation bounds.
pub proof fn lemma_mid_axis_diff_tracks_scale(scale: int)
    requires
        MIN_SCALE <= scale <= MAX_SCALE,
    ensures
        scale < 31 * spec_mid_axis_diff(scale),
{
    reveal(pow);
    lemma_axis_index_bracket(scale);
    lemma_pow2_search_constants();
    let j = spec_axis_index(scale);
    let p = pow(2, j);
    assert(pow(2, (j + 1) as nat) == 2 * p);
    assert(scale * 131072 < (2 * p) * 10_000_000);
    assert((2 * p) * 10_000_000 <= (155 * p) * 131072) by (nonlinear_arith)
        requires
            p > 0,
    ;
    assert(scale < 155 * p) by (nonlinear_arith)
        requires
            scale * 131072 < (155 * p) * 131072,
    ;
    lemma_sep_at_lower(j);
    assert(31 * spec_sep_at(j) >= 31 * (5 * p)) by (nonlinear_arith)
        requires
            spec_sep_at(j) >= 5 * p,
    ;
}

/// Exponentiation of two by repeated doubling.
fn pow2_u64(e: u64) -> (r: u64)
    requires
        e <= 40,
    ensures
        r == pow(2, e as nat),
{
    let mut r: u64 = 1;
    let mut i: u64 = 0;
    proof {
        vstd::arithmetic::power::lemma_pow0(2);
    }
    while i < e
        invariant
            i <= e <= 40,
            r == pow(2, i as nat),
        decreases e - i,
    {
        proof {
            reveal(pow);
            vstd::arithmetic::power2::lemma2_to64();
            vstd::arithmetic::power2::lemma2_to64_rest();
            vstd::arithmetic::power2::lemma_pow2(i as nat);
            vstd::arithmetic::power2::lemma_pow2(40);
            vstd::arithmetic::power2::lemma_pow2_strictly_increases(i as nat, 40);
            assert(pow(2, (i + 1) as nat) == 2 * pow(2, i as nat));
        }
        r = r * 2;
        i = i + 1;
    }
    r
}

/// Exponentiation of five by repeated multiplication.
fn pow5_u64(e: u64) -> (r: u64)
    requires
        e <= 13,
    ensures
        r == pow(5, e as nat),
{
    let mut r: u64 = 1;
    let mut i: u64 = 0;
    proof {
        vstd::arithmetic::power::lemma_pow0(5);
    }
    while i < e
        invariant
            i <= e <= 13,
            r == pow(5, i as nat),
        decreases e - i,
    {
        proof {
            reveal(pow);
            lemma_pow5_table();
            vstd::arithmetic::power::lemma_pow_increases(5, i as nat, 12);
            assert(pow(5, (i + 1) as nat) == 5 * pow(5, i as nat));
        }
        r = r * 5;
        i = i + 1;
    }
    r
}

/// Picks the "nice" mid-tier gridline spacing for a zoom scale on the
/// 1-2-5 decade scheme, in micro-units. The result is independent of pan
/// position, divisible by five, and monotone in the scale.
pub fn mid_axis_diff(scale: i64) -> (separation: i64)
    requires
        MIN_SCALE <= scale <= MAX_SCALE,
    ensures
        separation == spec_mid_axis_diff(scale as int),
        5 <= separation <= 500_000_000_000,
        separation % 5 == 0,
{
    proof {
        lemma_pow2_search_constants();
        lemma_axis_index_bracket(scale as int);
        lemma_mid_axis_diff_decade(scale as int);
    }
    let s17: u64 = (scale as u64) * 131072;
    let mut j: u64 = 0;
    let mut t: u64 = 20_000_000;
    while t <= s17
        invariant
            j <= 33,
            s17 == scale * pow(2, 17),
            MIN_SCALE <= scale <= MAX_SCALE,
            t == pow(2, (j + 1) as nat) * 10_000_000,
            pow(2, j as nat) * 10_000_000 <= s17,
        decreases 33 - j,
    {
        proof {
            reveal(pow);
            lemma_pow2_search_constants();
            assert(s17 < 17179869184 * 10_000_000);
            assert(pow(2, (j + 1) as nat) < pow(2, 34)) by (nonlinear_arith)
                requires
                    pow(2, (j + 1) as nat) * 10_000_000 <= s17,
                    s17 < pow(2, 34) * 10_000_000,
            ;
            vstd::arithmetic::power::lemma_pow_strictly_increases_converse(
                2,
                (j + 1) as nat,
                34,
            );
            vstd::arithmetic::power::lemma_pow_increases(2, (j + 2) as nat, 34);
            assert(pow(2, (j + 2) as nat) == 2 * pow(2, (j + 1) as nat));
        }
        j = j + 1;
        t = t * 2;
    }
    proof {
        lemma_bracket_unique(s17 as int, j as nat, spec_axis_index(scale as int));
    }
    let qq: u64 = (j + 3) / 3;
    let rr: u64 = (j + 3) % 3;
    proof {
        vstd::arithmetic::div_mod::lemma_fundamental_div_mod((j + 3) as int, 3);
        vstd::arithmetic::div_mod::lemma_div_is_ordered(3, (j + 3) as int, 3);
        vstd::arithmetic::div_mod::lemma_div_is_ordered((j + 3) as int, 36, 3);
        lemma_pow5_table();
        vstd::arithmetic::power2::lemma2_to64();
        vstd::arithmetic::power2::lemma_pow2(((qq + rr) - 1) as nat);
        vstd::arithmetic::power::lemma_pow_increases(2, ((qq + rr) - 1) as nat, 14);
        vstd::arithmetic::power2::lemma_pow2(14);
        vstd::arithmetic::power::lemma_pow_increases(5, qq as nat, 12);
        vstd::arithmetic::power::lemma_pow_positive(2, ((qq + rr) - 1) as nat);
        vstd::arithmetic::power::lemma_pow_positive(5, qq as nat);
    }
    let e2: u64 = qq + rr - 1;
    let p2: u64 = pow2_u64(e2);
    let p5: u64 = pow5_u64(qq);
    proof {
        assert(p2 * p5 <= 16384 * 244140625) by (nonlinear_arith)
            requires
                0 < p2 <= 16384,
                0 < p5 <= 244140625,
        ;
    }
    let separation: u64 = p2 * p5;
    separation as i64
}

/// Counts gridlines on one side of the bounds centre for each axis:
/// `extent / (2 * separation) + 1` lines, the added line covering an
/// occasional off-by-one at scale boundaries.
pub fn mid_axis_count(xbounds: Bounds, ybounds: Bounds, axis_separation: i64) -> (r: (usize, usize))
    requires
        xbounds.wf(),
        ybounds.wf(),
        1 <= axis_separation,
        xbounds.spec_extent() / (2 * axis_separation as int) + 1 <= usize::MAX,
        ybounds.spec_extent() / (2 * axis_separation as int) + 1 <= usize::MAX,
    ensures
        r.0 == xbounds.spec_extent() / (2 * axis_separation as int) + 1,
        r.1 == ybounds.spec_extent() / (2 * axis_separation as int) + 1,
        r.0 >= 1,
        r.1 >= 1,
{
    let den: u64 = 2 * (axis_separation as u64);
    let xext: u64 = (xbounds.end - xbounds.start) as u64;
    let yext: u64 = (ybounds.end - ybounds.start) as u64;
    proof {
        vstd::arithmetic::div_mod::lemma_div_pos_is_pos(xext as int, den as int);
        vstd::arithmetic::div_mod::lemma_div_pos_is_pos(yext as int, den as int);
    }
    let xline_count: usize = (xext / den + 1) as usize;
    let yline_count: usize = (yext / den + 1) as usize;
    (xline_count, yline_count)
}

/// Snaps a centre coordinate to the nearest multiple of the spacing (ties
/// away from zero), so gridlines stay aligned to round numbers as the
/// view pans.
pub fn round_to_step(centre: i64, separation: i64) -> (r: i64)
    requires
        1 <= separation <= 10_000_000_000_000,
        -COORD_LIMIT <= centre <= COORD_LIMIT,
    ensures
        r == spec_round_to_step(centre as int, separation as int),
        -(COORD_LIMIT + separation) <= r <= COORD_LIMIT + separation,
{
    let m: u64 = if centre >= 0 {
        centre as u64
    } else {
        (-centre) as u64
    };
    let num: u64 = 2 * m + (separation as u64);
    let den: u64 = 2 * (separation as u64);
    let q: u64 = num / den;
    proof {
        vstd::arithmetic::div_mod::lemma_fundamental_div_mod(num as int, den as int);
        vstd::arithmetic::div_mod::lemma_mod_bound(num as int, den as int);
        assert((num as int / den as int) * den == den * (num as int / den as int))
            by (nonlinear_arith);
        assert(q * den == 2 * (q * separation)) by (nonlinear_arith)
            requires
                den == 2 * separation,
        ;
        assert(2 * (q * separation) <= num);
        vstd::arithmetic::div_mod::lemma_div_pos_is_pos(num as int, den as int);
        assert(q * separation >= 0) by (nonlinear_arith)
            requires
                q >= 0,
                separation >= 1,
        ;
    }
    let prod: u64 = q * (separation as u64);
    if centre >= 0 {
        prod as i64
    } else {
        -(prod as i64)
    }
}

/// Recomputes the spacing information for freshly recalculated generation
/// bounds: spacing from the view's scale, per-axis line counts from the
/// bounds' extents, and the view centre snapped to the spacing grid.
pub fn recalculate_mid_axis_info(bounds: &GraphingBounds, view: &GraphingView) -> (info:
    MidAxisInfo)
    requires
        bounds.wf(),
        view.wf(),
        bounds.xbounds.spec_extent() / (2 * spec_mid_axis_diff(view.scale as int)) + 1
            <= 4294967295,
        bounds.ybounds.spec_extent() / (2 * spec_mid_axis_diff(view.scale as int)) + 1
            <= 4294967295,
    ensures
        info.separation == spec_mid_axis_diff(view.scale as int),
        info.separation % 5 == 0,
        5 <= info.separation,
        info.xline_count == bounds.xbounds.spec_extent() / (2 * info.separation as int) + 1,
        info.yline_count == bounds.ybounds.spec_extent() / (2 * info.separation as int) + 1,
        info.rounded_xcentre == spec_round_to_step(view.centre_x as int, info.separation as int),
        info.rounded_ycentre == spec_round_to_step(view.centre_y as int, info.separation as int),
        spec_info_matches(info, *bounds, *view),
        info.wf(),
{
    let separation = mid_axis_diff(view.scale);
    let counts = mid_axis_count(bounds.xbounds, bounds.ybounds, separation);
    let rounded_ycentre = round_to_step(view.centre_y, separation);
    let rounded_xcentre = round_to_step(view.centre_x, separation);
    proof {
        lemma_count_product_bounded(bounds.xbounds, separation as int);
        lemma_count_product_bounded(bounds.ybounds, separation as int);
    }
    MidAxisInfo {
        separation,
        xline_count: counts.0,
        yline_count: counts.1,
        rounded_xcentre,
        rounded_ycentre,
    }
}

/// The spacing times the line count it induces stays comfortably inside
/// the coordinate arithmetic's range.
proof fn lemma_count_product_bounded(b: Bounds, separation: int)
    requires
        b.wf(),
        1 <= separation <= 500_000_000_000,
    ensures
        separation * (b.spec_extent() / (2 * separation) + 1) <= 1_200_000_000_000_000_000,
{
    let ext = b.spec_extent();
    let q = ext / (2 * separation);
    vstd::arithmetic::div_mod::lemma_fundamental_div_mod(ext, 2 * separation);
    vstd::arithmetic::div_mod::lemma_mod_bound(ext, 2 * separation);
    assert((2 * separation) * q == 2 * (separation * q)) by (nonlinear_arith);
    assert(2 * (separation * q) <= ext);
    assert(separation * (q + 1) == separation * q + separation) by (nonlinear_arith);
}

impl MidAxisInfo {
    /// Well-formed: positive spacing and counts, snapped centres near the
    /// coordinate band, and spacing-count products small enough for exact
    /// vertex arithmetic.
    pub open spec fn wf(self) -> bool {
        &&& 1 <= self.separation <= 10_000_000_000_000
        &&& 1 <= self.xline_count <= 4294967295
        &&& 1 <= self.yline_count <= 4294967295
        &&& -(COORD_LIMIT + 10_000_000_000_000) <= self.rounded_xcentre <= COORD_LIMIT
            + 10_000_000_000_000
        &&& -(COORD_LIMIT + 10_000_000_000_000) <= self.rounded_ycentre <= COORD_LIMIT
            + 10_000_000_000_000
        &&& self.separation * self.xline_count <= 1_200_000_000_000_000_000
        &&& self.separation * self.yline_count <= 1_200_000_000_000_000_000
    }

    /// The minor tier's spacing information: a fifth of the mid-tier
    /// spacing (exact, the spacing being divisible by five) and five times
    /// its line counts, with the same snapped centres.
    pub fn calculate_min_axis_info(&self) -> (r: MinAxisInfo)
        requires
            self.wf(),
            self.separation % 5 == 0,
            self.separation >= 5,
            self.xline_count <= 858993459,
            self.yline_count <= 858993459,
        ensures
            r.separation == self.separation as int / 5,
            5 * r.separation == self.separation,
            r.xline_count == 5 * self.xline_count,
            r.yline_count == 5 * self.yline_count,
            r.rounded_xcentre == self.rounded_xcentre,
            r.rounded_ycentre == self.rounded_ycentre,
            r == spec_min_axis_info(*self),
            r.wf(),
    {
        proof {
            vstd::arithmetic::div_mod::lemma_fundamental_div_mod(self.separation as int, 5);
            let s5 = self.separation as int / 5;
            assert((5 * s5) * self.xline_count == s5 * (5 * self.xline_count))
                by (nonlinear_arith);
            assert((5 * s5) * self.yline_count == s5 * (5 * self.yline_count))
                by (nonlinear_arith);
        }
        MinAxisInfo {
            separation: ((self.separation as u64) / 5) as i64,
            xline_count: 5 * self.xline_count,
            yline_count: 5 * self.yline_count,
            rounded_xcentre: self.rounded_xcentre,
            rounded_ycentre: self.rounded_ycentre,
        }
    }
}

/// The minor tier divides the mid tier exactly: for every clamped scale
/// the mid spacing is a positive multiple of five, so five times the
/// minor spacing `separation / 5` gives back the mid spacing with no
/// remainder.
pub proof fn lemma_minor_spacing_exact(scale: int)
    requires
        MIN_SCALE <= scale <= MAX_SCALE,
    ensures
        spec_mid_axis_diff(scale) % 5 == 0,
        5 * (spec_mid_axis_diff(scale) / 5) == spec_mid_axis_diff(scale),
        spec_mid_axis_diff(scale) / 5 >= 1,
{
    lemma_mid_axis_diff_decade(scale);
    vstd::arithmetic::div_mod::lemma_fundamental_div_mod(spec_mid_axis_diff(scale), 5);
    vstd::arithmetic::div_mod::lemma_div_is_ordered(5, spec_mid_axis_diff(scale), 5);
}

/// Freshly recalculated generation bounds never ask for more lines than
/// the spacing information can hold: at most 62 on the x axis and a few
/// million on the y axis, whatever the window's aspect ratio.
pub proof fn lemma_fresh_bounds_counts_fit(view: GraphingView, window: WindowSize)
    requires
        view.wf(),
        window.wf(),
    ensures
        ({
            let b = spec_recalculate_graphing_bounds(view, window);
            let sep = spec_mid_axis_diff(view.scale as int);
            &&& b.xbounds.spec_extent() / (2 * sep) + 1 <= 62
            &&& b.ybounds.spec_extent() / (2 * sep) + 1 <= 6_200_000
        }),
{
    let b = spec_recalculate_graphing_bounds(view, window);
    let sep = spec_mid_axis_diff(view.scale as int);
    let scale = view.scale as int;
    lemma_mid_axis_diff_decade(scale);
    lemma_mid_axis_diff_tracks_scale(scale);
    crate::scaling::lemma_visible_dy_in_range(view, window);
    let dy = view.spec_visible_dy(window);
    assert(b.xbounds.spec_extent() == 4 * scale);
    assert(b.ybounds.spec_extent() == 4 * dy);
    assert(4 * scale < 62 * (2 * sep)) by (nonlinear_arith)
        requires
            scale < 31 * sep,
    ;
    vstd::arithmetic::div_mod::lemma_multiply_divide_lt(4 * scale, 2 * sep, 62);
    // bound the aspect-stretched half-extent by 100000 times the scale
    assert(scale * window.height <= scale * MAX_WINDOW_DIM) by (nonlinear_arith)
        requires
            0 <= scale,
            window.height <= MAX_WINDOW_DIM,
    ;
    vstd::arithmetic::div_mod::lemma_div_is_ordered(
        scale * window.height,
        scale * MAX_WINDOW_DIM,
        window.width as int,
    );
    vstd::arithmetic::div_mod::lemma_div_is_ordered_by_denominator(
        scale * MAX_WINDOW_DIM,
        MIN_WINDOW_DIM as int,
        window.width as int,
    );
    assert(scale * MAX_WINDOW_DIM == (scale * 100000) * MIN_WINDOW_DIM) by (nonlinear_arith)
        requires
            MAX_WINDOW_DIM == 100000 * MIN_WINDOW_DIM,
    ;
    vstd::arithmetic::div_mod::lemma_div_by_multiple(scale * 100000, MIN_WINDOW_DIM as int);
    assert(dy <= scale * 100000);
    assert(4 * dy < 6200000 * (2 * sep)) by (nonlinear_arith)
        requires
            dy <= scale * 100000,
            scale < 31 * sep,
            sep >= 1,
    ;
    vstd::arithmetic::div_mod::lemma_multiply_divide_lt(4 * dy, 2 * sep, 6200000);
}

} // verus!
