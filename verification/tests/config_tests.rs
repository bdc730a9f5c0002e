use rawaccel_userspace::binary64::{ONE, ONE_AND_A_HALF, ONE_THOUSAND, TWO, ZERO};
use rawaccel_userspace::config::{
    validate_lookup_table, AppAccelArgs, AppConfig, AppDeviceConfig, AppProfile, AppSpeedArgs,
    AppVec2D, ConfigError, LookupProblem,
};
use rawaccel_userspace::curves::{locate, LookupHit};
use rawaccel_userspace::models::{accel_mode, cap_mode, tiered_type, LUT_POINTS_CAPACITY};

fn b(v: f64) -> u64 {
    v.to_bits()
}

fn pt(x: f64, y: f64) -> AppVec2D {
    AppVec2D { x: b(x), y: b(y) }
}

fn named(name: &str) -> AppProfile {
    AppProfile { name: name.to_string(), ..Default::default() }
}

#[test]
fn lookup_points_are_written_as_driver_pairs() {
    let args = AppAccelArgs {
        mode: "lookup".to_string(),
        gain: true,
        lookup_table: vec![pt(1.0, 2.0), pt(4.0, 8.0)],
        ..Default::default()
    };

    let native = args.to_native();
    assert_eq!(native.length, 4);
    let data: Vec<f32> = native.data[..4].iter().map(|v| f64::from_bits(*v) as f32).collect();
    assert_eq!(data, [1.0, 2.0, 4.0, 8.0]);
    assert!(native.gain);
}

#[test]
fn lookup_validation_rejects_duplicate_input_speeds() {
    let args = AppAccelArgs {
        mode: "lookup".to_string(),
        lookup_table: vec![pt(1.0, 1.0), pt(1.0, 2.0)],
        ..Default::default()
    };

    assert!(validate_lookup_table("test", "X", &args).is_err());
}

#[test]
fn profile_validation_rejects_empty_profiles() {
    let config = AppConfig { profiles: vec![], devices: vec![] };
    assert!(config.validate().is_err());
}

#[test]
fn profile_validation_rejects_duplicate_names() {
    let config = AppConfig { profiles: vec![named("Gaming"), named("gaming")], devices: vec![] };
    assert!(config.validate().is_err());
}

#[test]
fn profile_validation_rejects_invalid_device_mapping() {
    let config = AppConfig {
        profiles: vec![named("Gaming")],
        devices: vec![AppDeviceConfig {
            id: "DEV123".to_string(),
            profile_id: Some("NonExistent".to_string()),
            ..Default::default()
        }],
    };
    assert!(config.validate().is_err());
}

#[test]
fn profile_validation_accepts_valid_multi_profile_mapping() {
    let config = AppConfig {
        profiles: vec![named("Gaming"), named("Desktop")],
        devices: vec![
            AppDeviceConfig {
                id: "DEV_MOUSE1".to_string(),
                profile_id: Some("Gaming".to_string()),
                ..Default::default()
            },
            AppDeviceConfig {
                id: "DEV_MOUSE2".to_string(),
                profile_id: Some("Desktop".to_string()),
                ..Default::default()
            },
            AppDeviceConfig {
                id: "DEV_TRACKPAD".to_string(),
                profile_id: None,
                disable: true,
                ..Default::default()
            },
        ],
    };
    assert!(config.validate().is_ok());
}

fn lookup(points: Vec<AppVec2D>) -> AppAccelArgs {
    AppAccelArgs { mode: "lookup".to_string(), lookup_table: points, ..Default::default() }
}

fn lookup_problem_of(args: &AppAccelArgs) -> Option<LookupProblem> {
    match validate_lookup_table("P", "Y", args) {
        Ok(()) => None,
        Err(ConfigError::Lookup { profile, axis, problem }) => {
            assert_eq!(profile, "P");
            assert_eq!(axis, "Y");
            Some(problem)
        }
        Err(other) => panic!("unexpected error {:?}", other),
    }
}

#[test]
fn lookup_validation_reports_each_problem() {
    assert_eq!(lookup_problem_of(&lookup(vec![pt(1.0, 1.0)])), Some(LookupProblem::TooFewPoints));
    let many: Vec<AppVec2D> = (1..=258).map(|i| pt(i as f64, 1.0)).collect();
    assert_eq!(lookup_problem_of(&lookup(many)), Some(LookupProblem::TooManyPoints));
    let most: Vec<AppVec2D> = (1..=257).map(|i| pt(i as f64, 1.0)).collect();
    assert_eq!(lookup_problem_of(&lookup(most)), None);
    assert_eq!(
        lookup_problem_of(&lookup(vec![pt(1.0, 1.0), pt(2.0, f64::NAN)])),
        Some(LookupProblem::NotFinite { index: 1 })
    );
    assert_eq!(
        lookup_problem_of(&lookup(vec![pt(f64::INFINITY, 1.0), pt(2.0, 1.0)])),
        Some(LookupProblem::NotFinite { index: 0 })
    );
    assert_eq!(
        lookup_problem_of(&lookup(vec![pt(-0.0, 1.0), pt(2.0, 1.0)])),
        Some(LookupProblem::NotPositive { index: 0 })
    );
    assert_eq!(
        lookup_problem_of(&lookup(vec![pt(3.0, 1.0), pt(2.0, 1.0)])),
        Some(LookupProblem::NotIncreasing)
    );
    // The first bad point decides, whatever follows it.
    assert_eq!(
        lookup_problem_of(&lookup(vec![pt(3.0, 1.0), pt(0.0, 1.0), pt(f64::NAN, 1.0)])),
        Some(LookupProblem::NotPositive { index: 1 })
    );
}

#[test]
fn lookup_validation_ignores_other_modes() {
    let args = AppAccelArgs { mode: "classic".to_string(), ..Default::default() };
    assert!(validate_lookup_table("P", "X", &args).is_ok());
}

#[test]
fn validation_reports_the_first_problem() {
    let blank = AppConfig { profiles: vec![named("A"), named(" \t ")], devices: vec![] };
    assert!(matches!(blank.validate(), Err(ConfigError::EmptyProfileName)));

    let dup = AppConfig { profiles: vec![named(" Gaming"), named("GAMING  ")], devices: vec![] };
    match dup.validate() {
        Err(ConfigError::DuplicateProfileName { name }) => assert_eq!(name, "GAMING  "),
        other => panic!("unexpected {:?}", other),
    }

    let mut bad_y = named("Split");
    bad_y.speed_processor_args = AppSpeedArgs { whole: false, ..Default::default() };
    bad_y.accel_y = lookup(vec![pt(1.0, 1.0)]);
    let split = AppConfig { profiles: vec![bad_y.clone()], devices: vec![] };
    match split.validate() {
        Err(ConfigError::Lookup { profile, axis, problem }) => {
            assert_eq!(profile, "Split");
            assert_eq!(axis, "Y");
            assert_eq!(problem, LookupProblem::TooFewPoints);
        }
        other => panic!("unexpected {:?}", other),
    }

    // With the axes combined, the Y table is not used.
    bad_y.speed_processor_args.whole = true;
    let whole = AppConfig { profiles: vec![bad_y], devices: vec![] };
    assert!(whole.validate().is_ok());

    // Device references are exact: no trimming, no case folding.
    let case = AppConfig {
        profiles: vec![named("Gaming")],
        devices: vec![AppDeviceConfig {
            id: "D".to_string(),
            profile_id: Some("gaming".to_string()),
            ..Default::default()
        }],
    };
    match case.validate() {
        Err(ConfigError::UnknownProfile { device, profile }) => {
            assert_eq!(device, "D");
            assert_eq!(profile, "gaming");
        }
        other => panic!("unexpected {:?}", other),
    }
}

#[test]
fn curve_conversion_replaces_unusable_parameters() {
    let args = AppAccelArgs {
        mode: "linear".to_string(),
        exponent_classic: b(3.0),
        motivity: b(1.0),
        smooth: b(1.5),
        cap_mode: "in".to_string(),
        t_type: "natural".to_string(),
        cap: pt(7.0, 8.0),
        ..Default::default()
    };
    let n = args.to_native();
    assert_eq!(n.mode, accel_mode::classic);
    assert_eq!(n.exponent_classic, TWO);
    assert_eq!(f64::from_bits(n.acceleration), 0.001);
    assert_eq!(f64::from_bits(n.decay_rate), 0.1);
    assert_eq!(n.gamma, ONE);
    assert_eq!(n.motivity, ONE_AND_A_HALF);
    assert_eq!(n.scale, ONE);
    assert_eq!(f64::from_bits(n.exponent_power), 0.05);
    assert_eq!(n.limit, TWO);
    assert_eq!(f64::from_bits(n.sync_speed), 5.0);
    assert_eq!(n.smooth, ZERO);
    assert_eq!(n.cap_mode, cap_mode::in_);
    assert_eq!(n.t_type, tiered_type::natural);
    assert_eq!(f64::from_bits(n.cap.x), 7.0);
    assert_eq!(f64::from_bits(n.cap.y), 8.0);
    assert_eq!(n.mode.code(), 0);
    assert_eq!(n.length, 0);
    assert_eq!(n.mid_cap, ONE);
    assert_eq!(n.final_cap, ONE);

    let kept = AppAccelArgs {
        mode: "power".to_string(),
        exponent_classic: b(3.0),
        acceleration: b(0.25),
        smooth: b(0.75),
        cap_mode: "io".to_string(),
        ..Default::default()
    };
    let n = kept.to_native();
    assert_eq!(n.mode, accel_mode::power);
    assert_eq!(f64::from_bits(n.exponent_classic), 3.0);
    assert_eq!(f64::from_bits(n.acceleration), 0.25);
    assert_eq!(f64::from_bits(n.smooth), 0.75);
    assert_eq!(n.cap_mode, cap_mode::io);
    assert_eq!(n.t_type, tiered_type::linear);

    let unknown = AppAccelArgs { mode: "bogus".to_string(), ..Default::default() };
    assert_eq!(unknown.to_native().mode, accel_mode::noaccel);
    assert_eq!(unknown.to_native().cap_mode, cap_mode::out);
}

#[test]
fn curve_conversion_keeps_at_most_the_table_capacity() {
    let points: Vec<AppVec2D> = (1..=300).map(|i| pt(i as f64, 2.0 * i as f64)).collect();
    let n = lookup(points).to_native();
    assert_eq!(n.length, 514);
    assert_eq!(f64::from_bits(n.data[512]), 257.0);
    assert_eq!(f64::from_bits(n.data[513]), 514.0);

    let n = lookup(vec![pt(1.5, 2.5)]).to_native();
    assert_eq!(n.length, 2);
    assert_eq!(f64::from_bits(n.data[0]), 1.5);
    assert_eq!(f64::from_bits(n.data[1]), 2.5);
    assert!(n.data[2..].iter().all(|v| *v == ZERO));
}

#[test]
fn profile_conversion_fills_defaults_and_name() {
    let mut p = named("Gaming \u{1F3AE}");
    p.range_weights = pt(-1.0, 0.0);
    p.domain_weights = pt(0.0, 2.0);
    p.output_dpi = b(-5.0);
    p.lr_output_dpi_ratio = b(1.25);
    p.degrees_rotation = b(45.0);
    let n = p.to_native();
    let expected: Vec<u16> = "Gaming \u{1F3AE}".encode_utf16().collect();
    assert_eq!(&n.name[..expected.len()], &expected[..]);
    assert!(n.name[expected.len()..].iter().all(|u| *u == 0));
    assert_eq!(n.output_dpi, ONE_THOUSAND);
    assert_eq!(f64::from_bits(n.lr_output_dpi_ratio), 1.25);
    assert_eq!(n.ud_output_dpi_ratio, ONE);
    assert_eq!(n.yx_output_dpi_ratio, ONE);
    assert_eq!(n.range_weights.x, ONE);
    assert_eq!(n.range_weights.y, ZERO);
    assert_eq!(n.domain_weights.x, ONE);
    assert_eq!(f64::from_bits(n.domain_weights.y), 2.0);
    assert_eq!(n.speed_processor_args.lp_norm, TWO);
    assert_eq!(f64::from_bits(n.degrees_rotation), 45.0);
    assert_eq!(n.accel_x.mode, accel_mode::noaccel);

    let long = named(&"x".repeat(400));
    let n = long.to_native();
    assert!(n.name[..255].iter().all(|u| *u == 'x' as u16));
    assert_eq!(n.name[255], 0);
}

#[test]
fn validated_tables_are_found_where_speeds_lie() {
    let args = AppAccelArgs {
        mode: "lookup".to_string(),
        lookup_table: vec![pt(1.0, 2.0), pt(4.0, 8.0), pt(9.0, 10.0)],
        ..Default::default()
    };
    assert!(validate_lookup_table("p", "X", &args).is_ok());
    let native = args.to_native();
    assert_eq!(native.mode, accel_mode::lookup);
    assert_eq!(native.length / 2, 3);
    let xs: Vec<u64> = (0..LUT_POINTS_CAPACITY).map(|i| native.data[2 * i]).collect();
    let size = native.length / 2;
    assert_eq!(locate(&xs, size, native.gain, b(0.5)), LookupHit::First { scaled: false });
    assert_eq!(locate(&xs, size, native.gain, b(1.0)), LookupHit::Exact { index: 0 });
    assert_eq!(locate(&xs, size, native.gain, b(2.0)), LookupHit::Between { upper: 1 });
    assert_eq!(locate(&xs, size, native.gain, b(4.0)), LookupHit::Exact { index: 1 });
    assert_eq!(locate(&xs, size, native.gain, b(20.0)), LookupHit::Between { upper: 2 });
}

#[test]
fn refusals_explain_themselves() {
    assert_eq!(ConfigError::NoProfiles.message(), "At least one profile is required");
    assert_eq!(ConfigError::EmptyProfileName.message(), "Profile name cannot be empty");
    assert_eq!(
        ConfigError::DuplicateProfileName { name: "gaming".to_string() }.message(),
        "Duplicate profile name 'gaming'"
    );
    let lookup = |problem| ConfigError::Lookup {
        profile: "Gaming".to_string(),
        axis: "Y".to_string(),
        problem,
    };
    assert_eq!(
        lookup(LookupProblem::TooFewPoints).message(),
        "Profile 'Gaming' Y lookup table needs at least two points"
    );
    assert_eq!(
        lookup(LookupProblem::TooManyPoints).message(),
        "Profile 'Gaming' Y lookup table has too many points (maximum 257)"
    );
    assert_eq!(
        lookup(LookupProblem::NotFinite { index: 0 }).message(),
        "Profile 'Gaming' Y lookup point 1 must contain finite numbers"
    );
    assert_eq!(
        lookup(LookupProblem::NotPositive { index: 109 }).message(),
        "Profile 'Gaming' Y lookup point 110 must have an input speed above zero"
    );
    assert_eq!(
        lookup(LookupProblem::NotIncreasing).message(),
        "Profile 'Gaming' Y lookup input speeds must be strictly increasing"
    );
    assert_eq!(
        ConfigError::UnknownProfile { device: "DEV1".to_string(), profile: "Work".to_string() }
            .message(),
        "Device 'DEV1' references non-existent profile 'Work'"
    );
}

#[test]
fn profile_names_are_compared_trimmed_and_lowercased() {
    let spaced = AppConfig {
        profiles: vec![named("\u{3000} Ärger\t"), named("ärger")],
        devices: vec![],
    };
    match spaced.validate() {
        Err(e) => assert_eq!(e.message(), "Duplicate profile name 'ärger'"),
        Ok(()) => panic!("duplicate accepted"),
    }
    let distinct = AppConfig { profiles: vec![named(" a b "), named("ab")], devices: vec![] };
    assert!(distinct.validate().is_ok());
}
