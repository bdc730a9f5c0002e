use rawaccel_userspace::binary64::{eq, is_finite, is_nan, le, lt};
use rawaccel_userspace::curves::{
    compute_flags, evaluated_curve, jump_branch, locate, precomputed_curve, tiered_linear_zone,
    tiered_natural_zone, CurveKind, JumpBranch, LookupHit, TieredLinearBreaks, TieredLinearZone,
    TieredNaturalZone,
};
use rawaccel_userspace::models::{accel_mode, profile, tiered_type, LUT_POINTS_CAPACITY};

fn b(v: f64) -> u64 {
    v.to_bits()
}

const SAMPLES: [f64; 14] = [
    0.0,
    -0.0,
    1.0,
    -1.0,
    0.5,
    1e-310,
    -1e-310,
    f64::MAX,
    f64::MIN,
    f64::INFINITY,
    f64::NEG_INFINITY,
    f64::NAN,
    3.25,
    -7.5,
];

#[test]
fn bit_comparisons_agree_with_doubles() {
    for a in SAMPLES {
        assert_eq!(is_nan(b(a)), a.is_nan());
        assert_eq!(is_finite(b(a)), a.is_finite());
        for c in SAMPLES {
            assert_eq!(lt(b(a), b(c)), a < c, "{} < {}", a, c);
            assert_eq!(le(b(a), b(c)), a <= c, "{} <= {}", a, c);
            assert_eq!(eq(b(a), b(c)), a == c, "{} == {}", a, c);
        }
    }
    assert!(is_nan(b(-f64::NAN)));
}

#[test]
fn dispatch_selects_the_curve_of_each_mode() {
    let l = tiered_type::linear;
    let n = tiered_type::natural;
    assert_eq!(precomputed_curve(accel_mode::classic, true, l), CurveKind::ClassicGain);
    assert_eq!(precomputed_curve(accel_mode::classic, false, l), CurveKind::ClassicLegacy);
    assert_eq!(precomputed_curve(accel_mode::jump, true, l), CurveKind::JumpGain);
    assert_eq!(precomputed_curve(accel_mode::natural, false, n), CurveKind::NaturalLegacy);
    assert_eq!(precomputed_curve(accel_mode::power, true, l), CurveKind::PowerGain);
    assert_eq!(precomputed_curve(accel_mode::tiered, true, l), CurveKind::TieredLinear);
    assert_eq!(precomputed_curve(accel_mode::tiered, true, n), CurveKind::TieredNaturalGain);
    assert_eq!(precomputed_curve(accel_mode::tiered, false, n), CurveKind::TieredNaturalLegacy);
    assert_eq!(precomputed_curve(accel_mode::synchronous, true, l), CurveKind::SynchronousGain);
    assert_eq!(precomputed_curve(accel_mode::lookup, true, l), CurveKind::Lookup);
    assert_eq!(precomputed_curve(accel_mode::noaccel, false, l), CurveKind::Noaccel);
    assert_eq!(evaluated_curve(accel_mode::synchronous, true, l), CurveKind::SynchronousLegacy);
    assert_eq!(evaluated_curve(accel_mode::synchronous, false, l), CurveKind::SynchronousLegacy);
    assert_eq!(evaluated_curve(accel_mode::classic, true, l), CurveKind::ClassicGain);
}

#[test]
fn flags_follow_the_profile() {
    let mut p = profile::default();
    p.degrees_rotation = b(45.0);
    p.speed_max = b(100.0);
    p.speed_min = b(0.0);
    p.lr_output_dpi_ratio = b(1.2);
    p.ud_output_dpi_ratio = b(1.0);
    let f = compute_flags(&p);
    assert!(f.apply_rotate);
    assert!(f.clamp_speed);
    assert!(f.apply_dir_mul_x);
    assert!(!f.apply_dir_mul_y);
    assert!(!f.apply_snap);
    assert!(!f.compute_ref_angle);

    p.speed_min = b(200.0);
    p.degrees_snap = b(-0.0);
    p.speed_processor_args.whole = true;
    p.range_weights.x = b(1.0);
    p.range_weights.y = b(0.5);
    let f = compute_flags(&p);
    assert!(!f.clamp_speed);
    assert!(!f.apply_snap);
    assert!(f.apply_directional_weight);
    assert!(f.compute_ref_angle);

    p.degrees_rotation = b(f64::NAN);
    assert!(compute_flags(&p).apply_rotate);
}

fn table(points: &[f64]) -> Vec<u64> {
    let mut xs = vec![0u64; LUT_POINTS_CAPACITY];
    for (i, x) in points.iter().enumerate() {
        xs[i] = b(*x);
    }
    xs
}

#[test]
fn lookup_search_finds_points_and_segments() {
    // Points (10, 1.0), (20, 1.4), (40, 2.0).
    let xs = table(&[10.0, 20.0, 40.0]);
    assert_eq!(locate(&xs, 3, false, b(10.0)), LookupHit::Exact { index: 0 });
    assert_eq!(locate(&xs, 3, false, b(20.0)), LookupHit::Exact { index: 1 });
    assert_eq!(locate(&xs, 3, false, b(15.0)), LookupHit::Between { upper: 1 });
    assert_eq!(locate(&xs, 3, false, b(30.0)), LookupHit::Between { upper: 2 });
    assert_eq!(locate(&xs, 3, false, b(40.0)), LookupHit::Between { upper: 2 });
    assert_eq!(locate(&xs, 3, false, b(90.0)), LookupHit::Between { upper: 2 });
    assert_eq!(locate(&xs, 3, false, b(5.0)), LookupHit::First { scaled: false });
    assert_eq!(locate(&xs, 3, true, b(5.0)), LookupHit::First { scaled: true });
    assert_eq!(locate(&xs, 3, false, b(0.0)), LookupHit::Identity);
    assert_eq!(locate(&xs, 3, false, b(-3.0)), LookupHit::Identity);
    assert_eq!(locate(&xs, 1, false, b(15.0)), LookupHit::Identity);
    assert_eq!(locate(&xs, -4, false, b(15.0)), LookupHit::Identity);
    // A NaN speed compares neither below nor above the first probe.
    assert_eq!(locate(&xs, 3, false, b(f64::NAN)), LookupHit::Exact { index: 0 });
}

#[test]
fn lookup_search_reports_reads_past_capacity() {
    let xs: Vec<u64> = (1..=LUT_POINTS_CAPACITY).map(|i| b(i as f64)).collect();
    assert_eq!(locate(&xs, 300, false, b(1000.0)), LookupHit::OutOfRange);
    assert_eq!(locate(&xs, 300, false, b(2.0)), LookupHit::Exact { index: 1 });
    assert_eq!(locate(&xs, 257, false, b(1000.0)), LookupHit::Between { upper: 256 });
}

#[test]
fn tiered_linear_zones_and_plateaus() {
    // Offsets 10 and 30, transitions of 10.
    let breaks = TieredLinearBreaks {
        x1: b(10.0),
        x1_end: b(20.0),
        inv_trans1: b(0.1),
        x2: b(30.0),
        x2_end: b(40.0),
        inv_trans2: b(0.1),
    };
    let z = |x: f64| tiered_linear_zone(&breaks, b(x));
    assert_eq!(z(0.0), TieredLinearZone::Base);
    assert_eq!(z(10.0), TieredLinearZone::Base);
    assert_eq!(z(15.0), TieredLinearZone::FirstRamp);
    assert_eq!(z(20.0), TieredLinearZone::Middle);
    assert_eq!(z(25.0), TieredLinearZone::Middle);
    assert_eq!(z(30.0), TieredLinearZone::Middle);
    assert_eq!(z(35.0), TieredLinearZone::SecondRamp);
    assert_eq!(z(40.0), TieredLinearZone::Top);
    assert_eq!(z(500.0), TieredLinearZone::Top);

    let sharp = TieredLinearBreaks { inv_trans1: b(0.0), inv_trans2: b(0.0), ..breaks };
    assert_eq!(tiered_linear_zone(&sharp, b(15.0)), TieredLinearZone::Middle);
    assert_eq!(tiered_linear_zone(&sharp, b(35.0)), TieredLinearZone::Top);
}

#[test]
fn tiered_natural_zones() {
    let z = |l1: f64, l2: f64, x: f64| tiered_natural_zone(b(10.0), b(30.0), b(l1), b(l2), b(x));
    assert_eq!(z(0.6, 0.6, 5.0), TieredNaturalZone::Base);
    assert_eq!(z(0.6, 0.6, 10.0), TieredNaturalZone::Base);
    assert_eq!(z(0.6, 0.6, 15.0), TieredNaturalZone::FirstDecay);
    assert_eq!(z(0.0, 0.6, 15.0), TieredNaturalZone::Base);
    assert_eq!(z(0.6, 0.6, 30.0), TieredNaturalZone::SecondDecay);
    assert_eq!(z(0.6, -0.0, 500.0), TieredNaturalZone::SecondLinear);
}

#[test]
fn jump_branches() {
    assert_eq!(jump_branch(true, b(0.0), b(15.0), b(0.0)), JumpBranch::Identity);
    assert_eq!(jump_branch(false, b(0.0), b(15.0), b(0.0)), JumpBranch::BeforeStep);
    assert_eq!(jump_branch(false, b(0.0), b(15.0), b(14.99)), JumpBranch::BeforeStep);
    assert_eq!(jump_branch(false, b(0.0), b(15.0), b(15.0)), JumpBranch::AfterStep);
    assert_eq!(jump_branch(true, b(0.6), b(20.0), b(10.0)), JumpBranch::Smooth);
}
