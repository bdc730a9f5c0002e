//! The settings as the user edits them, their validation, and their
//! conversion to the data the driver receives.
//!
//! Every `f64` of the settings is held as its bit pattern (see `binary64`).
use vstd::prelude::*;

use crate::binary64::{
    is_finite, le, lt, spec_is_finite, spec_is_nan, spec_le, spec_lt, FIVE, ONE, ONE_AND_A_HALF, ONE_TENTH,
    ONE_THOUSAND, ONE_THOUSANDTH, ONE_TWENTIETH, TWO, ZERO,
};
use crate::models::{
    accel_args, accel_mode, cap_mode, profile, speed_args, tiered_type, vec2d,
    LUT_POINTS_CAPACITY, LUT_RAW_DATA_CAPACITY, MAX_NAME_LEN,
};
use crate::curves::strictly_increasing;
use crate::text::{ascii_lower, is_ascii_text, decimal, decimal_digits, encode_utf16, lowercase, str_eq, to_lowercase, trim, trimmed, utf16_encode};

verus! {

/// A pair of doubles, by their bit patterns.
#[derive(Clone, Copy, Debug, Default)]
pub struct AppVec2D {
    pub x: u64,
    pub y: u64,
}

/// How the input speed is measured.
#[derive(Clone, Copy, Debug, Default)]
pub struct AppSpeedArgs {
    pub whole: bool,
    pub lp_norm: u64,
    pub input_speed_smooth_halflife: u64,
    pub scale_smooth_halflife: u64,
    pub output_speed_smooth_halflife: u64,
}

/// The curve of one axis as the user gives it.
#[derive(Clone, Debug, Default)]
pub struct AppAccelArgs {
    pub mode: String,
    pub gain: bool,
    pub input_offset: u64,
    pub output_offset: u64,
    pub acceleration: u64,
    pub decay_rate: u64,
    pub gamma: u64,
    pub motivity: u64,
    pub exponent_classic: u64,
    pub scale: u64,
    pub exponent_power: u64,
    pub limit: u64,
    pub sync_speed: u64,
    pub smooth: u64,
    pub t_type: String,
    pub tiered_multiplier1: u64,
    pub tiered_input_offset1: u64,
    pub tiered_multiplier2: u64,
    pub tiered_transition1: u64,
    pub tiered_input_offset2: u64,
    pub tiered_multiplier3: u64,
    pub tiered_transition2: u64,
    pub tiered_decay_rate1: u64,
    pub tiered_decay_rate2: u64,
    pub cap: AppVec2D,
    pub cap_mode: String,
    pub lookup_table: Vec<AppVec2D>,
}

/// A profile as the user gives it.
#[derive(Clone, Debug, Default)]
pub struct AppProfile {
    pub id: String,
    pub name: String,
    pub domain_weights: AppVec2D,
    pub range_weights: AppVec2D,
    pub accel_x: AppAccelArgs,
    pub accel_y: AppAccelArgs,
    pub speed_processor_args: AppSpeedArgs,
    pub output_dpi: u64,
    pub yx_output_dpi_ratio: u64,
    pub lr_output_dpi_ratio: u64,
    pub ud_output_dpi_ratio: u64,
    pub degrees_rotation: u64,
    pub degrees_snap: u64,
    pub speed_min: u64,
    pub speed_max: u64,
}

/// A device and the profile it uses.
#[derive(Clone, Debug, Default)]
pub struct AppDeviceConfig {
    pub id: String,
    pub profile_id: Option<String>,
    pub disable: bool,
    pub set_extra_info: bool,
    pub poll_time_lock: bool,
    pub dpi: u32,
    pub polling_rate: u32,
    pub clamp_min: u64,
    pub clamp_max: u64,
}

/// All the settings.
#[derive(Clone, Debug, Default)]
pub struct AppConfig {
    pub profiles: Vec<AppProfile>,
    pub devices: Vec<AppDeviceConfig>,
}

/// What is wrong with a lookup table. Point indices count from zero.
#[derive(Clone, Copy, Debug, PartialEq, Eq, Structural)]
pub enum LookupProblem {
    TooFewPoints,
    TooManyPoints,
    NotFinite { index: usize },
    NotPositive { index: usize },
    NotIncreasing,
}

/// Why settings are refused.
#[derive(Clone, Debug)]
pub enum ConfigError {
    NoProfiles,
    EmptyProfileName,
    DuplicateProfileName { name: String },
    Lookup { profile: String, axis: String, problem: LookupProblem },
    UnknownProfile { device: String, profile: String },
}

/// A `ConfigError` with its strings as characters.
pub enum ConfigErrorView {
    NoProfiles,
    EmptyProfileName,
    DuplicateProfileName { name: Seq<char> },
    Lookup { profile: Seq<char>, axis: Seq<char>, problem: LookupProblem },
    UnknownProfile { device: Seq<char>, profile: Seq<char> },
}

impl View for ConfigError {
    type V = ConfigErrorView;

    open spec fn view(&self) -> ConfigErrorView {
        match self {
            ConfigError::NoProfiles => ConfigErrorView::NoProfiles,
            ConfigError::EmptyProfileName => ConfigErrorView::EmptyProfileName,
            ConfigError::DuplicateProfileName { name } => ConfigErrorView::DuplicateProfileName {
                name: name@,
            },
            ConfigError::Lookup { profile, axis, problem } => ConfigErrorView::Lookup {
                profile: profile@,
                axis: axis@,
                problem: *problem,
            },
            ConfigError::UnknownProfile { device, profile } => ConfigErrorView::UnknownProfile {
                device: device@,
                profile: profile@,
            },
        }
    }
}

/// The message that explains a refusal, naming the profile, axis, point
/// (counted from one) or device concerned.
pub open spec fn message_of(e: ConfigErrorView) -> Seq<char> {
    match e {
        ConfigErrorView::NoProfiles => "At least one profile is required"@,
        ConfigErrorView::EmptyProfileName => "Profile name cannot be empty"@,
        ConfigErrorView::DuplicateProfileName { name } => "Duplicate profile name '"@ + name + "'"@,
        ConfigErrorView::Lookup { profile, axis, problem } => {
            let head = "Profile '"@ + profile + "' "@ + axis;
            match problem {
                LookupProblem::TooFewPoints => head + " lookup table needs at least two points"@,
                LookupProblem::TooManyPoints => head + " lookup table has too many points (maximum "@
                    + decimal_digits(LUT_POINTS_CAPACITY as nat) + ")"@,
                LookupProblem::NotFinite { index } => head + " lookup point "@ + decimal_digits(
                    (index + 1) as nat,
                ) + " must contain finite numbers"@,
                LookupProblem::NotPositive { index } => head + " lookup point "@ + decimal_digits(
                    (index + 1) as nat,
                ) + " must have an input speed above zero"@,
                LookupProblem::NotIncreasing => head
                    + " lookup input speeds must be strictly increasing"@,
            }
        },
        ConfigErrorView::UnknownProfile { device, profile } => "Device '"@ + device
            + "' references non-existent profile '"@ + profile + "'"@,
    }
}

impl ConfigError {
    /// The message that explains the refusal.
    pub fn message(&self) -> (m: String)
        ensures
            m@ == message_of(self@),
    {
        match self {
            ConfigError::NoProfiles => String::from_str("At least one profile is required"),
            ConfigError::EmptyProfileName => String::from_str("Profile name cannot be empty"),
            ConfigError::DuplicateProfileName { name } => String::from_str(
                "Duplicate profile name '",
            ).concat(name.as_str()).concat("'"),
            ConfigError::Lookup { profile, axis, problem } => {
                let head = String::from_str("Profile '").concat(profile.as_str()).concat(
                    "' ",
                ).concat(axis.as_str());
                match problem {
                    LookupProblem::TooFewPoints => head.concat(
                        " lookup table needs at least two points",
                    ),
                    LookupProblem::TooManyPoints => {
                        let cap = decimal(LUT_POINTS_CAPACITY as u128);
                        head.concat(" lookup table has too many points (maximum ").concat(
                            cap.as_str(),
                        ).concat(")")
                    },
                    LookupProblem::NotFinite { index } => {
                        let number = decimal(*index as u128 + 1);
                        head.concat(" lookup point ").concat(number.as_str()).concat(
                            " must contain finite numbers",
                        )
                    },
                    LookupProblem::NotPositive { index } => {
                        let number = decimal(*index as u128 + 1);
                        head.concat(" lookup point ").concat(number.as_str()).concat(
                            " must have an input speed above zero",
                        )
                    },
                    LookupProblem::NotIncreasing => head.concat(
                        " lookup input speeds must be strictly increasing",
                    ),
                }
            },
            ConfigError::UnknownProfile { device, profile } => String::from_str("Device '").concat(
                device.as_str(),
            ).concat("' references non-existent profile '").concat(profile.as_str()).concat("'"),
        }
    }
}

/// The first of `f(0), .., f(n - 1)` that is `Some`.
pub open spec fn first_problem<T>(f: spec_fn(int) -> Option<T>, n: int) -> Option<T>
    decreases n,
{
    if n <= 0 {
        None
    } else {
        match first_problem(f, n - 1) {
            Some(p) => Some(p),
            None => f(n - 1),
        }
    }
}

/// `first_problem` finds nothing exactly when every `f(i)` is `None`.
pub proof fn lemma_first_problem_none<T>(f: spec_fn(int) -> Option<T>, n: int)
    ensures
        first_problem(f, n) is None <==> forall|i: int| 0 <= i < n ==> #[trigger] f(i) is None,
    decreases n,
{
    if n > 0 {
        lemma_first_problem_none(f, n - 1);
    }
}

/// What `first_problem` finds is the value at the least index where `f` is
/// `Some`.
pub proof fn lemma_first_problem_some<T>(f: spec_fn(int) -> Option<T>, n: int)
    requires
        first_problem(f, n) is Some,
    ensures
        exists|i: int|
            0 <= i < n && #[trigger] f(i) == first_problem(f, n) && forall|j: int|
                0 <= j < i ==> #[trigger] f(j) is None,
    decreases n,
{
    if first_problem(f, n - 1) is Some {
        lemma_first_problem_some(f, n - 1);
    } else {
        lemma_first_problem_none(f, n - 1);
        assert(f(n - 1) == first_problem(f, n));
    }
}

/// Once found, the first problem stays the first one over longer ranges.
pub proof fn lemma_first_problem_stable<T>(f: spec_fn(int) -> Option<T>, m: int, n: int)
    requires
        0 <= m <= n,
        first_problem(f, m) is Some,
    ensures
        first_problem(f, n) == first_problem(f, m),
    decreases n - m,
{
    if n > m {
        lemma_first_problem_stable(f, m, n - 1);
    }
}

/// What is wrong with point `i` of a lookup table, judged as the points
/// before it are fine.
pub open spec fn point_problem(points: Seq<AppVec2D>, i: int) -> Option<LookupProblem> {
    let p = points[i];
    if !spec_is_finite(p.x) || !spec_is_finite(p.y) {
        Some(LookupProblem::NotFinite { index: i as usize })
    } else if spec_le(p.x, ZERO) {
        Some(LookupProblem::NotPositive { index: i as usize })
    } else if i > 0 && spec_le(p.x, points[i - 1].x) {
        Some(LookupProblem::NotIncreasing)
    } else {
        None
    }
}

/// `point_problem` of a table, as a function of the index.
pub open spec fn point_check(points: Seq<AppVec2D>) -> spec_fn(int) -> Option<LookupProblem> {
    |i: int| point_problem(points, i)
}

/// What is wrong with the lookup table of a curve: nothing unless its mode
/// is `lookup`; then it needs two to `LUT_POINTS_CAPACITY` points, each
/// finite with an input speed above zero, the input speeds strictly
/// increasing.
pub open spec fn lookup_problem(args: AppAccelArgs) -> Option<LookupProblem> {
    let points = args.lookup_table@;
    if args.mode@ != "lookup"@ {
        None
    } else if points.len() < 2 {
        Some(LookupProblem::TooFewPoints)
    } else if points.len() > LUT_POINTS_CAPACITY {
        Some(LookupProblem::TooManyPoints)
    } else {
        first_problem(point_check(points), points.len() as int)
    }
}

/// A name trimmed, with ASCII capitals made small.
pub open spec fn ascii_folded(name: Seq<char>) -> Seq<char> {
    trimmed(name).map_values(|c: char| ascii_lower(c))
}

/// The key under which profile names must be unique: trimmed, lowercase.
pub open spec fn name_key(name: Seq<char>) -> Seq<char> {
    lowercase(trimmed(name))
}

/// What is wrong with profile `i`, judged as the profiles before it are fine.
pub open spec fn profile_problem(profiles: Seq<AppProfile>, i: int) -> Option<ConfigErrorView> {
    let p = profiles[i];
    if trimmed(p.name@).len() == 0 {
        Some(ConfigErrorView::EmptyProfileName)
    } else if exists|j: int| 0 <= j < i && name_key(#[trigger] profiles[j].name@) == name_key(p.name@) {
        Some(ConfigErrorView::DuplicateProfileName { name: p.name@ })
    } else if lookup_problem(p.accel_x) is Some {
        Some(
            ConfigErrorView::Lookup {
                profile: p.name@,
                axis: "X"@,
                problem: lookup_problem(p.accel_x)->0,
            },
        )
    } else if !p.speed_processor_args.whole && lookup_problem(p.accel_y) is Some {
        Some(
            ConfigErrorView::Lookup {
                profile: p.name@,
                axis: "Y"@,
                problem: lookup_problem(p.accel_y)->0,
            },
        )
    } else {
        None
    }
}

/// `profile_problem` of a list of profiles, as a function of the index.
pub open spec fn profile_check(profiles: Seq<AppProfile>) -> spec_fn(int) -> Option<ConfigErrorView> {
    |i: int| profile_problem(profiles, i)
}

/// Some profile of the list has exactly this name.
pub open spec fn names_profile(profiles: Seq<AppProfile>, name: Seq<char>) -> bool {
    exists|i: int| 0 <= i < profiles.len() && #[trigger] profiles[i].name@ == name
}

/// What is wrong with device `k`: it names a profile that does not exist.
pub open spec fn device_problem(c: AppConfig, k: int) -> Option<ConfigErrorView> {
    let d = c.devices@[k];
    match d.profile_id {
        Some(pid) => if names_profile(c.profiles@, pid@) {
            None
        } else {
            Some(ConfigErrorView::UnknownProfile { device: d.id@, profile: pid@ })
        },
        None => None,
    }
}

/// `device_problem` of a configuration, as a function of the index.
pub open spec fn device_check(c: AppConfig) -> spec_fn(int) -> Option<ConfigErrorView> {
    |k: int| device_problem(c, k)
}

/// The first thing wrong with a configuration, in the order the checks run:
/// no profiles; then profile by profile; then device by device.
pub open spec fn config_problem(c: AppConfig) -> Option<ConfigErrorView> {
    if c.profiles@.len() == 0 {
        Some(ConfigErrorView::NoProfiles)
    } else {
        match first_problem(profile_check(c.profiles@), c.profiles@.len() as int) {
            Some(e) => Some(e),
            None => first_problem(device_check(c), c.devices@.len() as int),
        }
    }
}

/// A `ConfigError` about a lookup table.
fn lookup_error(profile_name: &str, axis: &str, problem: LookupProblem) -> (e: ConfigError)
    ensures
        e@ == (ConfigErrorView::Lookup { profile: profile_name@, axis: axis@, problem }),
{
    ConfigError::Lookup { profile: profile_name.to_owned(), axis: axis.to_owned(), problem }
}

/// Checks the lookup table of a curve whose mode is `lookup`; other curves
/// pass.
pub fn validate_lookup_table(profile_name: &str, axis: &str, args: &AppAccelArgs) -> (r: Result<
    (),
    ConfigError,
>)
    ensures
        r is Ok <==> lookup_problem(*args) is None,
        r matches Err(e) ==> e@ == (ConfigErrorView::Lookup {
            profile: profile_name@,
            axis: axis@,
            problem: lookup_problem(*args)->0,
        }),
{
    if !str_eq(args.mode.as_str(), "lookup") {
        return Ok(());
    }
    let points = &args.lookup_table;
    let n = points.len();
    if n < 2 {
        return Err(lookup_error(profile_name, axis, LookupProblem::TooFewPoints));
    }
    if n > LUT_POINTS_CAPACITY {
        return Err(lookup_error(profile_name, axis, LookupProblem::TooManyPoints));
    }
    let ghost f = point_check(points@);
    let mut previous_x: u64 = ZERO;
    let mut index: usize = 0;
    while index < n
        invariant
            n == points@.len(),
            2 <= n <= LUT_POINTS_CAPACITY,
            f == point_check(points@),
            lookup_problem(*args) == first_problem(f, n as int),
            index <= n,
            first_problem(f, index as int) is None,
            index > 0 ==> previous_x == points@[index - 1].x,
        decreases n - index,
    {
        let p = points[index];
        let problem = if !is_finite(p.x) || !is_finite(p.y) {
            Some(LookupProblem::NotFinite { index })
        } else if le(p.x, ZERO) {
            Some(LookupProblem::NotPositive { index })
        } else if index > 0 && le(p.x, previous_x) {
            Some(LookupProblem::NotIncreasing)
        } else {
            None
        };
        assert(problem == f(index as int));
        if let Some(problem) = problem {
            proof {
                lemma_first_problem_stable(f, index + 1, n as int);
            }
            return Err(lookup_error(profile_name, axis, problem));
        }
        previous_x = p.x;
        index = index + 1;
    }
    Ok(())
}

/// Whether `key` is among `keys`.
fn contains_key(keys: &Vec<String>, key: &String) -> (r: bool)
    ensures
        r == exists|j: int| 0 <= j < keys@.len() && #[trigger] keys@[j]@ == key@,
{
    let mut j: usize = 0;
    while j < keys.len()
        invariant
            j <= keys@.len(),
            forall|i: int| 0 <= i < j ==> #[trigger] keys@[i]@ != key@,
        decreases keys@.len() - j,
    {
        if keys[j] == *key {
            return true;
        }
        j = j + 1;
    }
    false
}

/// Whether some profile has exactly the name `name`.
fn has_profile_named(profiles: &Vec<AppProfile>, name: &String) -> (r: bool)
    ensures
        r == names_profile(profiles@, name@),
{
    let mut i: usize = 0;
    while i < profiles.len()
        invariant
            i <= profiles@.len(),
            forall|j: int| 0 <= j < i ==> #[trigger] profiles@[j].name@ != name@,
        decreases profiles@.len() - i,
    {
        if profiles[i].name == *name {
            return true;
        }
        i = i + 1;
    }
    false
}

impl AppConfig {
    /// Checks what the driver uses directly: there is a profile; profile
    /// names are not blank and are unique ignoring case and surrounding
    /// white space; lookup tables are sound (the one of the Y axis only when
    /// the axes are not combined); and devices name existing profiles.
    pub fn validate(&self) -> (r: Result<(), ConfigError>)
        ensures
            r is Ok <==> config_problem(*self) is None,
            r matches Err(e) ==> config_problem(*self) == Some(e@),
            r is Ok ==> forall|i: int, j: int|
                0 <= i < j < self.profiles@.len() && is_ascii_text(trimmed(self.profiles@[i].name@))
                    && is_ascii_text(trimmed(self.profiles@[j].name@)) ==> #[trigger] ascii_folded(
                    self.profiles@[i].name@,
                ) != #[trigger] ascii_folded(self.profiles@[j].name@),
    {
        let n = self.profiles.len();
        if n == 0 {
            return Err(ConfigError::NoProfiles);
        }
        let ghost f = profile_check(self.profiles@);
        let mut keys: Vec<String> = Vec::new();
        let mut i: usize = 0;
        while i < n
            invariant
                n == self.profiles@.len(),
                n > 0,
                f == profile_check(self.profiles@),
                i <= n,
                keys@.len() == i,
                forall|j: int| 0 <= j < i ==> #[trigger] keys@[j]@ == name_key(self.profiles@[j].name@),
                forall|j: int|
                    0 <= j < i && is_ascii_text(trimmed(self.profiles@[j].name@)) ==> name_key(
                        #[trigger] self.profiles@[j].name@,
                    ) == ascii_folded(self.profiles@[j].name@),
                first_problem(f, i as int) is None,
            decreases n - i,
        {
            let p = &self.profiles[i];
            let t = trim(p.name.as_str());
            if t.as_str().is_empty() {
                assert(f(i as int) == Some(ConfigErrorView::EmptyProfileName));
                proof {
                    lemma_first_problem_stable(f, i + 1, n as int);
                }
                return Err(ConfigError::EmptyProfileName);
            }
            let key = to_lowercase(t.as_str());
            assert(key@ == name_key(p.name@));
            assert(is_ascii_text(trimmed(p.name@)) ==> name_key(p.name@) == ascii_folded(p.name@));
            if contains_key(&keys, &key) {
                let ghost j = choose|j: int| 0 <= j < keys@.len() && #[trigger] keys@[j]@ == key@;
                assert(name_key(self.profiles@[j].name@) == name_key(p.name@));
                assert(f(i as int) == Some(ConfigErrorView::DuplicateProfileName { name: p.name@ }));
                proof {
                    lemma_first_problem_stable(f, i + 1, n as int);
                }
                return Err(ConfigError::DuplicateProfileName { name: p.name.clone() });
            }
            assert(!exists|j: int|
                0 <= j < i && name_key(#[trigger] self.profiles@[j].name@) == name_key(p.name@)) by {
                if exists|j: int|
                    0 <= j < i && name_key(#[trigger] self.profiles@[j].name@) == name_key(p.name@) {
                    let j = choose|j: int|
                        0 <= j < i && name_key(#[trigger] self.profiles@[j].name@) == name_key(
                            p.name@,
                        );
                    assert(keys@[j]@ == key@);
                }
            }
            match validate_lookup_table(p.name.as_str(), "X", &p.accel_x) {
                Err(e) => {
                    assert(f(i as int) == Some(e@));
                    proof {
                        lemma_first_problem_stable(f, i + 1, n as int);
                    }
                    return Err(e);
                },
                Ok(()) => {},
            }
            if !p.speed_processor_args.whole {
                match validate_lookup_table(p.name.as_str(), "Y", &p.accel_y) {
                    Err(e) => {
                        assert(f(i as int) == Some(e@));
                        proof {
                            lemma_first_problem_stable(f, i + 1, n as int);
                        }
                        return Err(e);
                    },
                    Ok(()) => {},
                }
            }
            assert(f(i as int) is None);
            keys.push(key);
            i = i + 1;
        }
        let ghost g = device_check(*self);
        let m = self.devices.len();
        let mut k: usize = 0;
        while k < m
            invariant
                n == self.profiles@.len(),
                n > 0,
                m == self.devices@.len(),
                first_problem(f, n as int) is None,
                f == profile_check(self.profiles@),
                g == device_check(*self),
                forall|j: int|
                    0 <= j < n && is_ascii_text(trimmed(self.profiles@[j].name@)) ==> name_key(
                        #[trigger] self.profiles@[j].name@,
                    ) == ascii_folded(self.profiles@[j].name@),
                k <= m,
                first_problem(g, k as int) is None,
            decreases m - k,
        {
            let d = &self.devices[k];
            match &d.profile_id {
                Some(pid) => {
                    if !has_profile_named(&self.profiles, pid) {
                        assert(g(k as int) == Some(
                            ConfigErrorView::UnknownProfile { device: d.id@, profile: pid@ },
                        ));
                        proof {
                            lemma_first_problem_stable(g, k + 1, m as int);
                        }
                        return Err(
                            ConfigError::UnknownProfile { device: d.id.clone(), profile: pid.clone() },
                        );
                    }
                },
                None => {},
            }
            assert(g(k as int) is None);
            k = k + 1;
        }
        proof {
            lemma_config_valid_iff(*self);
            assert forall|i: int, j: int|
                0 <= i < j < self.profiles@.len() && is_ascii_text(trimmed(self.profiles@[i].name@))
                    && is_ascii_text(trimmed(self.profiles@[j].name@)) implies #[trigger] ascii_folded(
                    self.profiles@[i].name@,
                ) != #[trigger] ascii_folded(self.profiles@[j].name@) by {
                assert(name_key(self.profiles@[i].name@) == ascii_folded(self.profiles@[i].name@));
                assert(name_key(self.profiles@[j].name@) == ascii_folded(self.profiles@[j].name@));
            }
        }
        Ok(())
    }
}

} // verus!

verus! {

/// The curve named by a mode string; `linear` is the classic curve, and an
/// unknown name turns acceleration off.
pub open spec fn mode_named(s: Seq<char>) -> accel_mode {
    if s == "classic"@ || s == "linear"@ {
        accel_mode::classic
    } else if s == "jump"@ {
        accel_mode::jump
    } else if s == "natural"@ {
        accel_mode::natural
    } else if s == "synchronous"@ {
        accel_mode::synchronous
    } else if s == "power"@ {
        accel_mode::power
    } else if s == "lookup"@ {
        accel_mode::lookup
    } else if s == "tiered"@ {
        accel_mode::tiered
    } else {
        accel_mode::noaccel
    }
}

/// The cap mode named by a string; anything but `in` and `io` caps the output.
pub open spec fn cap_mode_named(s: Seq<char>) -> cap_mode {
    if s == "in"@ {
        cap_mode::in_
    } else if s == "io"@ {
        cap_mode::io
    } else {
        cap_mode::out
    }
}

/// The tiered shape named by a string; anything but `natural` is linear.
pub open spec fn tiered_type_named(s: Seq<char>) -> tiered_type {
    if s == "natural"@ {
        tiered_type::natural
    } else {
        tiered_type::linear
    }
}

/// `v`, or `fallback` where `v <= 0.0`.
pub open spec fn above_zero_or(v: u64, fallback: u64) -> u64 {
    if spec_le(v, ZERO) {
        fallback
    } else {
        v
    }
}

/// `v`, or `fallback` where `v < 0.0`.
pub open spec fn not_negative_or(v: u64, fallback: u64) -> u64 {
    if spec_lt(v, ZERO) {
        fallback
    } else {
        v
    }
}

/// The number of lookup points kept of a table of `n`.
pub open spec fn lookup_point_count(n: int) -> int {
    if n < LUT_POINTS_CAPACITY {
        n
    } else {
        LUT_POINTS_CAPACITY as int
    }
}

/// The exponent of the classic curve: 2 for `linear`, else the given one
/// when it exceeds 1, else 2.
pub open spec fn classic_exponent(mode: Seq<char>, exponent: u64) -> u64 {
    if mode == "linear"@ {
        TWO
    } else if spec_le(exponent, ONE) {
        TWO
    } else {
        exponent
    }
}

/// The smoothing of the jump curve: the given one when it lies in `[0, 1]`,
/// else 0.
pub open spec fn smooth_in_unit(smooth: u64) -> u64 {
    if spec_lt(smooth, ZERO) || spec_lt(ONE, smooth) {
        ZERO
    } else {
        smooth
    }
}

/// `a` is the curve `app` converted for the driver, its lookup values still
/// doubles.
pub open spec fn is_native_curve(app: AppAccelArgs, a: accel_args) -> bool {
    let n = lookup_point_count(app.lookup_table@.len() as int);
    &&& a.mode == mode_named(app.mode@)
    &&& a.gain == app.gain
    &&& a.input_offset == app.input_offset
    &&& a.output_offset == app.output_offset
    &&& a.acceleration == above_zero_or(app.acceleration, ONE_THOUSANDTH)
    &&& a.decay_rate == above_zero_or(app.decay_rate, ONE_TENTH)
    &&& a.gamma == above_zero_or(app.gamma, ONE)
    &&& a.motivity == (if spec_le(app.motivity, ONE) {
        ONE_AND_A_HALF
    } else {
        app.motivity
    })
    &&& a.exponent_classic == classic_exponent(app.mode@, app.exponent_classic)
    &&& a.scale == above_zero_or(app.scale, ONE)
    &&& a.exponent_power == above_zero_or(app.exponent_power, ONE_TWENTIETH)
    &&& a.limit == above_zero_or(app.limit, TWO)
    &&& a.sync_speed == above_zero_or(app.sync_speed, FIVE)
    &&& a.smooth == smooth_in_unit(app.smooth)
    &&& a.speed1 == ZERO
    &&& a.speed2 == ZERO
    &&& a.mid_cap == ONE
    &&& a.speed3 == ZERO
    &&& a.speed4 == ZERO
    &&& a.final_cap == ONE
    &&& a.t_type == tiered_type_named(app.t_type@)
    &&& a.tiered_multiplier1 == app.tiered_multiplier1
    &&& a.tiered_input_offset1 == app.tiered_input_offset1
    &&& a.tiered_multiplier2 == app.tiered_multiplier2
    &&& a.tiered_transition1 == app.tiered_transition1
    &&& a.tiered_input_offset2 == app.tiered_input_offset2
    &&& a.tiered_multiplier3 == app.tiered_multiplier3
    &&& a.tiered_transition2 == app.tiered_transition2
    &&& a.tiered_decay_rate1 == app.tiered_decay_rate1
    &&& a.tiered_decay_rate2 == app.tiered_decay_rate2
    &&& a.cap == (vec2d { x: app.cap.x, y: app.cap.y })
    &&& a.cap_mode == cap_mode_named(app.cap_mode@)
    &&& a.length == 2 * n
    &&& forall|i: int|
        0 <= i < n ==> #[trigger] a.data[2 * i] == app.lookup_table@[i].x && a.data[2 * i + 1]
            == app.lookup_table@[i].y
    &&& forall|i: int| 2 * n <= i < LUT_RAW_DATA_CAPACITY ==> #[trigger] a.data[i] == ZERO
}

/// The name the driver receives: the UTF-16 units of `name`, cut to leave
/// room for a closing NUL, the rest of the buffer zero.
pub open spec fn is_native_name(name: Seq<char>, units: [u16; MAX_NAME_LEN]) -> bool {
    let e = utf16_encode(name);
    let n = if e.len() < MAX_NAME_LEN - 1 {
        e.len() as int
    } else {
        MAX_NAME_LEN - 1
    };
    &&& forall|i: int| 0 <= i < n ==> #[trigger] units[i] == e[i]
    &&& forall|i: int| n <= i < MAX_NAME_LEN ==> #[trigger] units[i] == 0
}

/// `p` is what the driver receives for the profile `app`.
pub open spec fn is_native_profile(app: AppProfile, p: profile) -> bool {
    &&& is_native_name(app.name@, p.name)
    &&& is_native_curve(app.accel_x, p.accel_x)
    &&& is_native_curve(app.accel_y, p.accel_y)
    &&& p.degrees_rotation == app.degrees_rotation
    &&& p.degrees_snap == app.degrees_snap
    &&& p.speed_min == app.speed_min
    &&& p.speed_max == app.speed_max
    &&& p.lr_output_dpi_ratio == above_zero_or(app.lr_output_dpi_ratio, ONE)
    &&& p.ud_output_dpi_ratio == above_zero_or(app.ud_output_dpi_ratio, ONE)
    &&& p.output_dpi == above_zero_or(app.output_dpi, ONE_THOUSAND)
    &&& p.yx_output_dpi_ratio == above_zero_or(app.yx_output_dpi_ratio, ONE)
    &&& p.range_weights == (vec2d {
        x: not_negative_or(app.range_weights.x, ONE),
        y: not_negative_or(app.range_weights.y, ONE),
    })
    &&& p.domain_weights == (vec2d {
        x: above_zero_or(app.domain_weights.x, ONE),
        y: above_zero_or(app.domain_weights.y, ONE),
    })
    &&& p.speed_processor_args == (speed_args {
        whole: app.speed_processor_args.whole,
        lp_norm: above_zero_or(app.speed_processor_args.lp_norm, TWO),
        input_speed_smooth_halflife: app.speed_processor_args.input_speed_smooth_halflife,
        scale_smooth_halflife: app.speed_processor_args.scale_smooth_halflife,
        output_speed_smooth_halflife: app.speed_processor_args.output_speed_smooth_halflife,
    })
}

/// `v`, or `fallback` where `v <= 0.0`.
fn positive_or(v: u64, fallback: u64) -> (r: u64)
    ensures
        r == above_zero_or(v, fallback),
{
    if le(v, ZERO) {
        fallback
    } else {
        v
    }
}

/// `v`, or `fallback` where `v < 0.0`.
fn non_negative_or(v: u64, fallback: u64) -> (r: u64)
    ensures
        r == not_negative_or(v, fallback),
{
    if lt(v, ZERO) {
        fallback
    } else {
        v
    }
}

/// The curve named by a mode string.
pub fn parse_accel_mode(s: &str) -> (m: accel_mode)
    ensures
        m == mode_named(s@),
{
    if str_eq(s, "classic") || str_eq(s, "linear") {
        accel_mode::classic
    } else if str_eq(s, "jump") {
        accel_mode::jump
    } else if str_eq(s, "natural") {
        accel_mode::natural
    } else if str_eq(s, "synchronous") {
        accel_mode::synchronous
    } else if str_eq(s, "power") {
        accel_mode::power
    } else if str_eq(s, "lookup") {
        accel_mode::lookup
    } else if str_eq(s, "tiered") {
        accel_mode::tiered
    } else {
        accel_mode::noaccel
    }
}

/// The cap mode named by a string.
pub fn parse_cap_mode(s: &str) -> (m: cap_mode)
    ensures
        m == cap_mode_named(s@),
{
    if str_eq(s, "in") {
        cap_mode::in_
    } else if str_eq(s, "io") {
        cap_mode::io
    } else {
        cap_mode::out
    }
}

/// The tiered shape named by a string.
pub fn parse_tiered_type(s: &str) -> (t: tiered_type)
    ensures
        t == tiered_type_named(s@),
{
    if str_eq(s, "natural") {
        tiered_type::natural
    } else {
        tiered_type::linear
    }
}

impl AppAccelArgs {
    /// The curve converted for the driver: unusable parameters replaced by
    /// defaults, names turned into modes, and the lookup table, cut to the
    /// driver's capacity, laid out as x, y pairs of doubles (which the
    /// driver's layout narrows to `f32`).
    pub fn to_native(&self) -> (a: accel_args)
        ensures
            is_native_curve(*self, a),
    {
        let mut args = accel_args::default();
        args.mode = parse_accel_mode(self.mode.as_str());
        args.gain = self.gain;
        args.input_offset = self.input_offset;
        args.output_offset = self.output_offset;
        args.acceleration = positive_or(self.acceleration, ONE_THOUSANDTH);
        args.decay_rate = positive_or(self.decay_rate, ONE_TENTH);
        args.gamma = positive_or(self.gamma, ONE);
        args.motivity = if le(self.motivity, ONE) {
            ONE_AND_A_HALF
        } else {
            self.motivity
        };
        args.exponent_classic = if str_eq(self.mode.as_str(), "linear") {
            TWO
        } else if le(self.exponent_classic, ONE) {
            TWO
        } else {
            self.exponent_classic
        };
        args.scale = positive_or(self.scale, ONE);
        args.exponent_power = positive_or(self.exponent_power, ONE_TWENTIETH);
        args.limit = positive_or(self.limit, TWO);
        args.sync_speed = positive_or(self.sync_speed, FIVE);
        args.smooth = if lt(self.smooth, ZERO) || lt(ONE, self.smooth) {
            ZERO
        } else {
            self.smooth
        };
        args.t_type = parse_tiered_type(self.t_type.as_str());
        args.tiered_multiplier1 = self.tiered_multiplier1;
        args.tiered_input_offset1 = self.tiered_input_offset1;
        args.tiered_multiplier2 = self.tiered_multiplier2;
        args.tiered_transition1 = self.tiered_transition1;
        args.tiered_input_offset2 = self.tiered_input_offset2;
        args.tiered_multiplier3 = self.tiered_multiplier3;
        args.tiered_transition2 = self.tiered_transition2;
        args.tiered_decay_rate1 = self.tiered_decay_rate1;
        args.tiered_decay_rate2 = self.tiered_decay_rate2;
        args.cap = vec2d { x: self.cap.x, y: self.cap.y };
        args.cap_mode = parse_cap_mode(self.cap_mode.as_str());

        let table = &self.lookup_table;
        let num_points = if table.len() < LUT_POINTS_CAPACITY {
            table.len()
        } else {
            LUT_POINTS_CAPACITY
        };
        let mut data = [ZERO; LUT_RAW_DATA_CAPACITY];
        let mut i: usize = 0;
        while i < num_points
            invariant
                num_points == lookup_point_count(table@.len() as int),
                num_points <= LUT_POINTS_CAPACITY,
                i <= num_points,
                forall|j: int|
                    0 <= j < i ==> #[trigger] data[2 * j] == table@[j].x && data[2 * j + 1]
                        == table@[j].y,
                forall|j: int| 2 * i <= j < LUT_RAW_DATA_CAPACITY ==> #[trigger] data[j] == ZERO,
            decreases num_points - i,
        {
            data[2 * i] = table[i].x;
            data[2 * i + 1] = table[i].y;
            i = i + 1;
        }
        args.length = (num_points * 2) as i32;
        args.data = data;
        args
    }
}

impl AppProfile {
    /// The profile as the driver receives it: the name in UTF-16, both
    /// curves converted, and unusable ratios, weights and norms replaced by
    /// defaults.
    pub fn to_native(&self) -> (p: profile)
        ensures
            is_native_profile(*self, p),
    {
        let mut prof = profile::default();
        let units = encode_utf16(self.name.as_str());
        let n = if units.len() < MAX_NAME_LEN - 1 {
            units.len()
        } else {
            MAX_NAME_LEN - 1
        };
        let mut i: usize = 0;
        while i < n
            invariant
                units@ == utf16_encode(self.name@),
                n == (if units@.len() < MAX_NAME_LEN - 1 {
                    units@.len() as int
                } else {
                    MAX_NAME_LEN - 1
                }),
                i <= n,
                forall|j: int| 0 <= j < i ==> #[trigger] prof.name[j] == units@[j],
                forall|j: int| i <= j < MAX_NAME_LEN ==> #[trigger] prof.name[j] == 0,
            decreases n - i,
        {
            prof.name[i] = units[i];
            i = i + 1;
        }
        prof.accel_x = self.accel_x.to_native();
        prof.accel_y = self.accel_y.to_native();
        prof.degrees_rotation = self.degrees_rotation;
        prof.degrees_snap = self.degrees_snap;
        prof.speed_min = self.speed_min;
        prof.speed_max = self.speed_max;
        prof.lr_output_dpi_ratio = positive_or(self.lr_output_dpi_ratio, ONE);
        prof.ud_output_dpi_ratio = positive_or(self.ud_output_dpi_ratio, ONE);
        prof.output_dpi = positive_or(self.output_dpi, ONE_THOUSAND);
        prof.yx_output_dpi_ratio = positive_or(self.yx_output_dpi_ratio, ONE);
        prof.range_weights = vec2d {
            x: non_negative_or(self.range_weights.x, ONE),
            y: non_negative_or(self.range_weights.y, ONE),
        };
        prof.domain_weights = vec2d {
            x: positive_or(self.domain_weights.x, ONE),
            y: positive_or(self.domain_weights.y, ONE),
        };
        prof.speed_processor_args = speed_args {
            whole: self.speed_processor_args.whole,
            lp_norm: positive_or(self.speed_processor_args.lp_norm, TWO),
            input_speed_smooth_halflife: self.speed_processor_args.input_speed_smooth_halflife,
            scale_smooth_halflife: self.speed_processor_args.scale_smooth_halflife,
            output_speed_smooth_halflife: self.speed_processor_args.output_speed_smooth_halflife,
        };
        prof
    }
}

} // verus!

verus! {

/// Settings pass validation exactly when there is a profile, no profile
/// name is blank, no two names are equal once trimmed and lowercased, every
/// lookup table in use is sound (the Y table only when the axes are not
/// combined), and every device that names a profile names an existing one.
pub proof fn lemma_config_valid_iff(c: AppConfig)
    ensures
        config_problem(c) is None <==> {
            &&& c.profiles@.len() > 0
            &&& forall|i: int|
                0 <= i < c.profiles@.len() ==> trimmed(#[trigger] c.profiles@[i].name@).len() > 0
            &&& forall|i: int, j: int|
                0 <= i < j < c.profiles@.len() ==> name_key(#[trigger] c.profiles@[i].name@)
                    != name_key(#[trigger] c.profiles@[j].name@)
            &&& forall|i: int|
                0 <= i < c.profiles@.len() ==> lookup_problem(#[trigger] c.profiles@[i].accel_x) is None
            &&& forall|i: int|
                0 <= i < c.profiles@.len() && !c.profiles@[i].speed_processor_args.whole
                    ==> lookup_problem(#[trigger] c.profiles@[i].accel_y) is None
            &&& forall|k: int|
                0 <= k < c.devices@.len() && (#[trigger] c.devices@[k]).profile_id is Some
                    ==> names_profile(c.profiles@, c.devices@[k].profile_id->0@)
        },
{
    let ps = c.profiles@;
    let f = profile_check(ps);
    let g = device_check(c);
    lemma_first_problem_none(f, ps.len() as int);
    lemma_first_problem_none(g, c.devices@.len() as int);
    if config_problem(c) is None {
        assert forall|i: int, j: int|
            0 <= i < j < ps.len() implies name_key(#[trigger] ps[i].name@) != name_key(
                #[trigger] ps[j].name@,
            ) by {
            assert(f(j) is None);
        }
        assert forall|i: int| 0 <= i < ps.len() implies trimmed(#[trigger] ps[i].name@).len() > 0 by {
            assert(f(i) is None);
        }
        assert forall|i: int| 0 <= i < ps.len() implies lookup_problem(#[trigger] ps[i].accel_x) is None by {
            assert(f(i) is None);
        }
        assert forall|i: int|
            0 <= i < ps.len() && !ps[i].speed_processor_args.whole implies lookup_problem(
                #[trigger] ps[i].accel_y,
            ) is None by {
            assert(f(i) is None);
        }
        assert forall|k: int|
            0 <= k < c.devices@.len() && (#[trigger] c.devices@[k]).profile_id is Some implies names_profile(
                ps,
                c.devices@[k].profile_id->0@,
            ) by {
            assert(g(k) is None);
        }
    }
}

/// A sound lookup table in use has two to `LUT_POINTS_CAPACITY` points, all
/// finite, with input speeds above zero that strictly increase.
pub proof fn lemma_valid_lookup_table(args: AppAccelArgs)
    requires
        args.mode@ == "lookup"@,
        lookup_problem(args) is None,
    ensures
        2 <= args.lookup_table@.len() <= LUT_POINTS_CAPACITY,
        forall|i: int|
            0 <= i < args.lookup_table@.len() ==> spec_is_finite(#[trigger] args.lookup_table@[i].x)
                && spec_is_finite(args.lookup_table@[i].y) && spec_lt(ZERO, args.lookup_table@[i].x),
        forall|i: int, j: int|
            0 <= i < j < args.lookup_table@.len() ==> spec_lt(
                #[trigger] args.lookup_table@[i].x,
                #[trigger] args.lookup_table@[j].x,
            ),
{
    let pts = args.lookup_table@;
    let f = point_check(pts);
    lemma_first_problem_none(f, pts.len() as int);
    assert forall|i: int| 0 <= i < pts.len() implies spec_is_finite(#[trigger] pts[i].x) && spec_is_finite(
        pts[i].y,
    ) && spec_lt(ZERO, pts[i].x) by {
        assert(f(i) is None);
        crate::binary64::lemma_trichotomy(pts[i].x, ZERO);
    }
    assert forall|i: int| 0 < i < pts.len() implies spec_lt(pts[i - 1].x, #[trigger] pts[i].x) by {
        assert(f(i) is None);
        crate::binary64::lemma_trichotomy(pts[i].x, pts[i - 1].x);
    }
    assert forall|i: int, j: int| 0 <= i < j < pts.len() implies spec_lt(
        #[trigger] pts[i].x,
        #[trigger] pts[j].x,
    ) by {
        lemma_increasing_steps(pts, i, j);
    }
}

/// Strictly increasing neighbours make a strictly increasing table.
proof fn lemma_increasing_steps(pts: Seq<AppVec2D>, i: int, j: int)
    requires
        0 <= i < j < pts.len(),
        forall|k: int| 0 < k < pts.len() ==> spec_lt(pts[k - 1].x, #[trigger] pts[k].x),
    ensures
        spec_lt(pts[i].x, pts[j].x),
    decreases j - i,
{
    assert(spec_lt(pts[j - 1].x, pts[j].x));
    if j - 1 > i {
        lemma_increasing_steps(pts, i, j - 1);
        crate::binary64::lemma_lt_transitive(pts[i].x, pts[j - 1].x, pts[j].x);
    }
}

/// The value is a NaN or above zero.
pub open spec fn nan_or_positive(v: u64) -> bool {
    spec_is_nan(v) || spec_lt(ZERO, v)
}

/// The value is a NaN or above one.
pub open spec fn nan_or_above_one(v: u64) -> bool {
    spec_is_nan(v) || spec_lt(ONE, v)
}

/// A default of `above_zero_or` that is above zero leaves no value at or
/// below zero.
pub proof fn lemma_above_zero_or(v: u64, fallback: u64)
    requires
        spec_lt(ZERO, fallback),
    ensures
        nan_or_positive(above_zero_or(v, fallback)),
{
    if !spec_is_nan(v) {
        crate::binary64::lemma_trichotomy(v, ZERO);
    }
}

/// A converted curve has no parameter that its curve cannot use: rates,
/// gamma, scale, exponents, limit and sync speed are above zero, motivity
/// and the classic exponent above one (each unless NaN), the smoothing lies
/// in `[0, 1]` unless NaN, and the table's length is even and within
/// capacity, half of it being the number of points kept.
pub proof fn lemma_native_curve_usable(app: AppAccelArgs, a: accel_args)
    requires
        is_native_curve(app, a),
    ensures
        nan_or_positive(a.acceleration),
        nan_or_positive(a.decay_rate),
        nan_or_positive(a.gamma),
        nan_or_positive(a.scale),
        nan_or_positive(a.exponent_power),
        nan_or_positive(a.limit),
        nan_or_positive(a.sync_speed),
        nan_or_above_one(a.motivity),
        nan_or_above_one(a.exponent_classic),
        spec_is_nan(a.smooth) || (spec_le(ZERO, a.smooth) && spec_le(a.smooth, ONE)),
        0 <= a.length <= LUT_RAW_DATA_CAPACITY,
        a.length % 2 == 0,
        a.length / 2 == lookup_point_count(app.lookup_table@.len() as int),
{
    lemma_above_zero_or(app.acceleration, ONE_THOUSANDTH);
    lemma_above_zero_or(app.decay_rate, ONE_TENTH);
    lemma_above_zero_or(app.gamma, ONE);
    lemma_above_zero_or(app.scale, ONE);
    lemma_above_zero_or(app.exponent_power, ONE_TWENTIETH);
    lemma_above_zero_or(app.limit, TWO);
    lemma_above_zero_or(app.sync_speed, FIVE);
    if !spec_is_nan(app.motivity) {
        crate::binary64::lemma_trichotomy(app.motivity, ONE);
    }
    if !spec_is_nan(app.exponent_classic) {
        crate::binary64::lemma_trichotomy(app.exponent_classic, ONE);
    }
    if !spec_is_nan(app.smooth) {
        crate::binary64::lemma_trichotomy(app.smooth, ZERO);
        crate::binary64::lemma_trichotomy(app.smooth, ONE);
    }
}

/// A converted profile's name is NUL-terminated, and its output DPI, DPI
/// ratios, domain weights and norm are above zero and its range weights not
/// below zero (each unless NaN).
pub proof fn lemma_native_profile_usable(app: AppProfile, p: profile)
    requires
        is_native_profile(app, p),
    ensures
        p.name[MAX_NAME_LEN - 1] == 0,
        nan_or_positive(p.output_dpi),
        nan_or_positive(p.yx_output_dpi_ratio),
        nan_or_positive(p.lr_output_dpi_ratio),
        nan_or_positive(p.ud_output_dpi_ratio),
        nan_or_positive(p.domain_weights.x),
        nan_or_positive(p.domain_weights.y),
        nan_or_positive(p.speed_processor_args.lp_norm),
        spec_is_nan(p.range_weights.x) || spec_le(ZERO, p.range_weights.x),
        spec_is_nan(p.range_weights.y) || spec_le(ZERO, p.range_weights.y),
{
    assert(p.name[MAX_NAME_LEN - 1] == 0);
    lemma_above_zero_or(app.output_dpi, ONE_THOUSAND);
    lemma_above_zero_or(app.yx_output_dpi_ratio, ONE);
    lemma_above_zero_or(app.lr_output_dpi_ratio, ONE);
    lemma_above_zero_or(app.ud_output_dpi_ratio, ONE);
    lemma_above_zero_or(app.domain_weights.x, ONE);
    lemma_above_zero_or(app.domain_weights.y, ONE);
    lemma_above_zero_or(app.speed_processor_args.lp_norm, TWO);
    if !spec_is_nan(app.range_weights.x) {
        crate::binary64::lemma_trichotomy(app.range_weights.x, ZERO);
    }
    if !spec_is_nan(app.range_weights.y) {
        crate::binary64::lemma_trichotomy(app.range_weights.y, ZERO);
    }
}

} // verus!

verus! {

/// The inputs of the points of a curve's lookup table (every other value,
/// from the first), as doubles.
pub open spec fn table_inputs(a: accel_args) -> Seq<u64> {
    Seq::new(LUT_POINTS_CAPACITY as nat, |i: int| a.data[2 * i])
}

/// A lookup table that passes validation is converted whole and sorted: its
/// points keep their number, and the doubles that the conversion hands on
/// as their inputs strictly increase, which is what the search of the table
/// relies on. (Narrowed to `f32` for the driver, two close inputs may become
/// equal; that narrowing is not part of this statement.)
pub proof fn lemma_native_table_sorted(app: AppAccelArgs, a: accel_args)
    requires
        app.mode@ == "lookup"@,
        lookup_problem(app) is None,
        is_native_curve(app, a),
    ensures
        a.mode == accel_mode::lookup,
        a.length / 2 == app.lookup_table@.len(),
        2 <= a.length / 2 <= LUT_POINTS_CAPACITY,
        strictly_increasing(table_inputs(a), a.length / 2),
{
    reveal_strlit("classic");
    reveal_strlit("linear");
    reveal_strlit("jump");
    reveal_strlit("natural");
    reveal_strlit("synchronous");
    reveal_strlit("power");
    reveal_strlit("lookup");
    assert("lookup"@ != "linear"@) by {
        assert("lookup"@[1] != "linear"@[1]);
    }
    assert("lookup"@.len() != "classic"@.len());
    assert("lookup"@.len() != "jump"@.len());
    assert("lookup"@.len() != "natural"@.len());
    assert("lookup"@.len() != "synchronous"@.len());
    assert("lookup"@.len() != "power"@.len());
    assert(mode_named(app.mode@) == accel_mode::lookup);
    lemma_valid_lookup_table(app);
    let pts = app.lookup_table@;
    let xs = table_inputs(a);
    assert forall|i: int| 0 <= i < pts.len() implies #[trigger] xs[i] == pts[i].x by {
        assert(a.data[2 * i] == pts[i].x);
    }
    assert forall|i: int| 0 <= i < a.length / 2 implies !spec_is_nan(#[trigger] xs[i]) by {
        assert(xs[i] == pts[i].x);
    }
    assert forall|i: int, j: int| 0 <= i < j < a.length / 2 implies spec_lt(
        #[trigger] xs[i],
        #[trigger] xs[j],
    ) by {
        assert(xs[i] == pts[i].x);
        assert(xs[j] == pts[j].x);
    }
}

} // verus!

verus! {

/// A curve that does not use a lookup table has no table problem; a lookup
/// table of two to `LUT_POINTS_CAPACITY` points, each finite with an input
/// speed above zero, the input speeds strictly increasing, has none either.
/// With `lemma_valid_lookup_table`, these are exactly the tables accepted.
pub proof fn lemma_sound_lookup_table_accepted(args: AppAccelArgs)
    requires
        args.mode@ == "lookup"@ ==> {
            let pts = args.lookup_table@;
            &&& 2 <= pts.len() <= LUT_POINTS_CAPACITY
            &&& forall|i: int|
                0 <= i < pts.len() ==> spec_is_finite(#[trigger] pts[i].x) && spec_is_finite(
                    pts[i].y,
                ) && spec_lt(ZERO, pts[i].x)
            &&& forall|i: int, j: int|
                0 <= i < j < pts.len() ==> spec_lt(#[trigger] pts[i].x, #[trigger] pts[j].x)
        },
    ensures
        lookup_problem(args) is None,
{
    if args.mode@ == "lookup"@ {
        let pts = args.lookup_table@;
        let f = point_check(pts);
        assert forall|i: int| 0 <= i < pts.len() implies #[trigger] f(i) is None by {
            crate::binary64::lemma_trichotomy(pts[i].x, ZERO);
            if i > 0 {
                assert(spec_lt(pts[i - 1].x, pts[i].x));
                crate::binary64::lemma_trichotomy(pts[i].x, pts[i - 1].x);
            }
        }
        lemma_first_problem_none(f, pts.len() as int);
    }
}

/// The names of the modes, cap modes and tiered shapes.
pub proof fn lemma_mode_names()
    ensures
        mode_named("classic"@) == accel_mode::classic,
        mode_named("linear"@) == accel_mode::classic,
        mode_named("jump"@) == accel_mode::jump,
        mode_named("natural"@) == accel_mode::natural,
        mode_named("synchronous"@) == accel_mode::synchronous,
        mode_named("power"@) == accel_mode::power,
        mode_named("lookup"@) == accel_mode::lookup,
        mode_named("tiered"@) == accel_mode::tiered,
        cap_mode_named("in"@) == cap_mode::in_,
        cap_mode_named("io"@) == cap_mode::io,
        tiered_type_named("natural"@) == tiered_type::natural,
{
    reveal_strlit("classic");
    reveal_strlit("linear");
    reveal_strlit("jump");
    reveal_strlit("natural");
    reveal_strlit("synchronous");
    reveal_strlit("power");
    reveal_strlit("lookup");
    reveal_strlit("tiered");
    reveal_strlit("in");
    reveal_strlit("io");
    assert("classic"@[0] == 'c');
    assert("linear"@[0] == 'l' && "linear"@[1] == 'i');
    assert("jump"@[0] == 'j');
    assert("natural"@[0] == 'n');
    assert("synchronous"@[0] == 's');
    assert("power"@[0] == 'p');
    assert("lookup"@[0] == 'l' && "lookup"@[1] == 'o');
    assert("tiered"@[0] == 't');
    assert("in"@[1] == 'n');
    assert("io"@[1] == 'o');
    assert("linear"@ != "classic"@);
    assert("jump"@ != "classic"@ && "jump"@ != "linear"@);
    assert("natural"@ != "classic"@ && "natural"@ != "linear"@ && "natural"@ != "jump"@);
    assert("synchronous"@ != "classic"@ && "synchronous"@ != "linear"@ && "synchronous"@
        != "jump"@ && "synchronous"@ != "natural"@);
    assert("power"@ != "classic"@ && "power"@ != "linear"@ && "power"@ != "jump"@ && "power"@
        != "natural"@ && "power"@ != "synchronous"@);
    assert("lookup"@ != "classic"@ && "lookup"@ != "linear"@ && "lookup"@ != "jump"@ && "lookup"@
        != "natural"@ && "lookup"@ != "synchronous"@ && "lookup"@ != "power"@);
    assert("tiered"@ != "classic"@ && "tiered"@ != "linear"@ && "tiered"@ != "jump"@ && "tiered"@
        != "natural"@ && "tiered"@ != "synchronous"@ && "tiered"@ != "power"@ && "tiered"@
        != "lookup"@);
    assert("io"@ != "in"@);
}

/// What the conversion of a curve keeps and what it replaces: the gain
/// flag, offsets, cap and every tiered parameter pass unchanged; each mode,
/// cap mode and shape name selects its own value (an unknown mode turns
/// acceleration off, an unknown cap mode caps the output); a parameter
/// keeps its value unless it is outside the range its curve can use, where
/// its default takes its place; and the table's points, cut to capacity,
/// are laid out in order as x, y pairs with zeros after them.
pub proof fn lemma_native_curve_faithful(app: AppAccelArgs, a: accel_args)
    requires
        is_native_curve(app, a),
    ensures
        a.gain == app.gain,
        a.input_offset == app.input_offset,
        a.output_offset == app.output_offset,
        a.cap.x == app.cap.x,
        a.cap.y == app.cap.y,
        a.tiered_multiplier1 == app.tiered_multiplier1,
        a.tiered_input_offset1 == app.tiered_input_offset1,
        a.tiered_multiplier2 == app.tiered_multiplier2,
        a.tiered_transition1 == app.tiered_transition1,
        a.tiered_input_offset2 == app.tiered_input_offset2,
        a.tiered_multiplier3 == app.tiered_multiplier3,
        a.tiered_transition2 == app.tiered_transition2,
        a.tiered_decay_rate1 == app.tiered_decay_rate1,
        a.tiered_decay_rate2 == app.tiered_decay_rate2,
        app.mode@ == "classic"@ || app.mode@ == "linear"@ ==> a.mode == accel_mode::classic,
        app.mode@ == "jump"@ ==> a.mode == accel_mode::jump,
        app.mode@ == "natural"@ ==> a.mode == accel_mode::natural,
        app.mode@ == "synchronous"@ ==> a.mode == accel_mode::synchronous,
        app.mode@ == "power"@ ==> a.mode == accel_mode::power,
        app.mode@ == "lookup"@ ==> a.mode == accel_mode::lookup,
        app.mode@ == "tiered"@ ==> a.mode == accel_mode::tiered,
        a.mode != accel_mode::noaccel ==> (app.mode@ == "classic"@ || app.mode@ == "linear"@
            || app.mode@ == "jump"@ || app.mode@ == "natural"@ || app.mode@ == "synchronous"@
            || app.mode@ == "power"@ || app.mode@ == "lookup"@ || app.mode@ == "tiered"@),
        app.cap_mode@ == "in"@ ==> a.cap_mode == cap_mode::in_,
        app.cap_mode@ == "io"@ ==> a.cap_mode == cap_mode::io,
        app.cap_mode@ != "in"@ && app.cap_mode@ != "io"@ ==> a.cap_mode == cap_mode::out,
        a.t_type == tiered_type::natural <==> app.t_type@ == "natural"@,
        !spec_le(app.acceleration, ZERO) ==> a.acceleration == app.acceleration,
        spec_le(app.acceleration, ZERO) ==> a.acceleration == ONE_THOUSANDTH,
        !spec_le(app.decay_rate, ZERO) ==> a.decay_rate == app.decay_rate,
        spec_le(app.decay_rate, ZERO) ==> a.decay_rate == ONE_TENTH,
        !spec_le(app.gamma, ZERO) ==> a.gamma == app.gamma,
        spec_le(app.gamma, ZERO) ==> a.gamma == ONE,
        !spec_le(app.motivity, ONE) ==> a.motivity == app.motivity,
        spec_le(app.motivity, ONE) ==> a.motivity == ONE_AND_A_HALF,
        app.mode@ == "linear"@ ==> a.exponent_classic == TWO,
        app.mode@ != "linear"@ && !spec_le(app.exponent_classic, ONE) ==> a.exponent_classic
            == app.exponent_classic,
        spec_le(app.exponent_classic, ONE) ==> a.exponent_classic == TWO,
        !spec_le(app.scale, ZERO) ==> a.scale == app.scale,
        spec_le(app.scale, ZERO) ==> a.scale == ONE,
        !spec_le(app.exponent_power, ZERO) ==> a.exponent_power == app.exponent_power,
        spec_le(app.exponent_power, ZERO) ==> a.exponent_power == ONE_TWENTIETH,
        !spec_le(app.limit, ZERO) ==> a.limit == app.limit,
        spec_le(app.limit, ZERO) ==> a.limit == TWO,
        !spec_le(app.sync_speed, ZERO) ==> a.sync_speed == app.sync_speed,
        spec_le(app.sync_speed, ZERO) ==> a.sync_speed == FIVE,
        !spec_lt(app.smooth, ZERO) && !spec_lt(ONE, app.smooth) ==> a.smooth == app.smooth,
        spec_lt(app.smooth, ZERO) || spec_lt(ONE, app.smooth) ==> a.smooth == ZERO,
        app.lookup_table@.len() <= LUT_POINTS_CAPACITY ==> a.length == 2
            * app.lookup_table@.len(),
        app.lookup_table@.len() > LUT_POINTS_CAPACITY ==> a.length == LUT_RAW_DATA_CAPACITY,
        forall|i: int|
            0 <= i < app.lookup_table@.len() && i < LUT_POINTS_CAPACITY ==> #[trigger] a.data[2
                * i] == app.lookup_table@[i].x && a.data[2 * i + 1] == app.lookup_table@[i].y,
        forall|i: int| a.length <= i < LUT_RAW_DATA_CAPACITY ==> #[trigger] a.data[i] == ZERO,
{
    lemma_mode_names();
}

/// What the conversion of a profile keeps and what it replaces: the name
/// becomes its UTF-16 units, cut to leave room for a closing NUL, zeros
/// after them; both curves are converted; rotation, snapping and the speed
/// bounds pass unchanged; DPI, DPI ratios, domain weights and the norm keep
/// their value unless at or below zero, range weights unless below zero,
/// where their defaults take their place.
pub proof fn lemma_native_profile_faithful(app: AppProfile, p: profile)
    requires
        is_native_profile(app, p),
    ensures
        forall|i: int|
            0 <= i < utf16_encode(app.name@).len() && i < MAX_NAME_LEN - 1 ==> #[trigger] p.name[i]
                == utf16_encode(app.name@)[i],
        forall|i: int|
            0 <= i < MAX_NAME_LEN && (i >= utf16_encode(app.name@).len() || i == MAX_NAME_LEN - 1)
                ==> #[trigger] p.name[i] == 0,
        is_native_curve(app.accel_x, p.accel_x),
        is_native_curve(app.accel_y, p.accel_y),
        p.degrees_rotation == app.degrees_rotation,
        p.degrees_snap == app.degrees_snap,
        p.speed_min == app.speed_min,
        p.speed_max == app.speed_max,
        p.speed_processor_args.whole == app.speed_processor_args.whole,
        p.speed_processor_args.input_speed_smooth_halflife
            == app.speed_processor_args.input_speed_smooth_halflife,
        p.speed_processor_args.scale_smooth_halflife == app.speed_processor_args.scale_smooth_halflife,
        p.speed_processor_args.output_speed_smooth_halflife
            == app.speed_processor_args.output_speed_smooth_halflife,
        !spec_le(app.output_dpi, ZERO) ==> p.output_dpi == app.output_dpi,
        spec_le(app.output_dpi, ZERO) ==> p.output_dpi == ONE_THOUSAND,
        !spec_le(app.yx_output_dpi_ratio, ZERO) ==> p.yx_output_dpi_ratio == app.yx_output_dpi_ratio,
        spec_le(app.yx_output_dpi_ratio, ZERO) ==> p.yx_output_dpi_ratio == ONE,
        !spec_le(app.lr_output_dpi_ratio, ZERO) ==> p.lr_output_dpi_ratio == app.lr_output_dpi_ratio,
        spec_le(app.lr_output_dpi_ratio, ZERO) ==> p.lr_output_dpi_ratio == ONE,
        !spec_le(app.ud_output_dpi_ratio, ZERO) ==> p.ud_output_dpi_ratio == app.ud_output_dpi_ratio,
        spec_le(app.ud_output_dpi_ratio, ZERO) ==> p.ud_output_dpi_ratio == ONE,
        !spec_le(app.domain_weights.x, ZERO) ==> p.domain_weights.x == app.domain_weights.x,
        spec_le(app.domain_weights.x, ZERO) ==> p.domain_weights.x == ONE,
        !spec_le(app.domain_weights.y, ZERO) ==> p.domain_weights.y == app.domain_weights.y,
        spec_le(app.domain_weights.y, ZERO) ==> p.domain_weights.y == ONE,
        !spec_lt(app.range_weights.x, ZERO) ==> p.range_weights.x == app.range_weights.x,
        spec_lt(app.range_weights.x, ZERO) ==> p.range_weights.x == ONE,
        !spec_lt(app.range_weights.y, ZERO) ==> p.range_weights.y == app.range_weights.y,
        spec_lt(app.range_weights.y, ZERO) ==> p.range_weights.y == ONE,
        !spec_le(app.speed_processor_args.lp_norm, ZERO) ==> p.speed_processor_args.lp_norm
            == app.speed_processor_args.lp_norm,
        spec_le(app.speed_processor_args.lp_norm, ZERO) ==> p.speed_processor_args.lp_norm == TWO,
{
}

} // verus!
