//! The decisions of the acceleration curves: which curve a mode selects,
//! which steps of the pipeline a profile needs, which segment of a lookup
//! table an input speed falls in, and which zone of a tiered curve it lies
//! in. The curves' arithmetic is done on doubles by the caller; these
//! functions only compare doubles, by their bit patterns (see `binary64`).
use vstd::prelude::*;

use crate::binary64::{
    eq, le, lt, spec_eq, spec_is_nan, spec_le, spec_lt, ONE, ZERO,
};
use crate::models::{accel_mode, modifier_flags, profile, tiered_type, LUT_POINTS_CAPACITY};

verus! {

/// The curve structs that the driver can hold for an axis.
#[derive(Copy, Clone, Debug, PartialEq, Eq, Structural)]
pub enum CurveKind {
    ClassicGain,
    ClassicLegacy,
    JumpGain,
    JumpLegacy,
    NaturalGain,
    NaturalLegacy,
    PowerGain,
    PowerLegacy,
    TieredLinear,
    TieredNaturalGain,
    TieredNaturalLegacy,
    SynchronousGain,
    SynchronousLegacy,
    Lookup,
    Noaccel,
}

/// The curve whose constants are precomputed for the driver: the gain or
/// the legacy form of the mode, the linear tiered curve having one form.
pub open spec fn spec_precomputed_curve(mode: accel_mode, gain: bool, t_type: tiered_type) -> CurveKind {
    match mode {
        accel_mode::classic => if gain {
            CurveKind::ClassicGain
        } else {
            CurveKind::ClassicLegacy
        },
        accel_mode::jump => if gain {
            CurveKind::JumpGain
        } else {
            CurveKind::JumpLegacy
        },
        accel_mode::natural => if gain {
            CurveKind::NaturalGain
        } else {
            CurveKind::NaturalLegacy
        },
        accel_mode::power => if gain {
            CurveKind::PowerGain
        } else {
            CurveKind::PowerLegacy
        },
        accel_mode::tiered => if t_type == tiered_type::linear {
            CurveKind::TieredLinear
        } else if gain {
            CurveKind::TieredNaturalGain
        } else {
            CurveKind::TieredNaturalLegacy
        },
        accel_mode::synchronous => if gain {
            CurveKind::SynchronousGain
        } else {
            CurveKind::SynchronousLegacy
        },
        accel_mode::lookup => CurveKind::Lookup,
        accel_mode::noaccel => CurveKind::Noaccel,
    }
}

/// The curve that evaluates a mode in userspace: as precomputed, except that
/// the synchronous curve is always evaluated in its legacy form.
pub open spec fn spec_evaluated_curve(mode: accel_mode, gain: bool, t_type: tiered_type) -> CurveKind {
    if mode == accel_mode::synchronous {
        CurveKind::SynchronousLegacy
    } else {
        spec_precomputed_curve(mode, gain, t_type)
    }
}

/// The curve whose constants are written for the driver.
pub fn precomputed_curve(mode: accel_mode, gain: bool, t_type: tiered_type) -> (k: CurveKind)
    ensures
        k == spec_precomputed_curve(mode, gain, t_type),
{
    match mode {
        accel_mode::classic => if gain {
            CurveKind::ClassicGain
        } else {
            CurveKind::ClassicLegacy
        },
        accel_mode::jump => if gain {
            CurveKind::JumpGain
        } else {
            CurveKind::JumpLegacy
        },
        accel_mode::natural => if gain {
            CurveKind::NaturalGain
        } else {
            CurveKind::NaturalLegacy
        },
        accel_mode::power => if gain {
            CurveKind::PowerGain
        } else {
            CurveKind::PowerLegacy
        },
        accel_mode::tiered => if t_type == tiered_type::linear {
            CurveKind::TieredLinear
        } else if gain {
            CurveKind::TieredNaturalGain
        } else {
            CurveKind::TieredNaturalLegacy
        },
        accel_mode::synchronous => if gain {
            CurveKind::SynchronousGain
        } else {
            CurveKind::SynchronousLegacy
        },
        accel_mode::lookup => CurveKind::Lookup,
        accel_mode::noaccel => CurveKind::Noaccel,
    }
}

/// The curve that evaluates a mode in userspace.
pub fn evaluated_curve(mode: accel_mode, gain: bool, t_type: tiered_type) -> (k: CurveKind)
    ensures
        k == spec_evaluated_curve(mode, gain, t_type),
{
    if mode == accel_mode::synchronous {
        CurveKind::SynchronousLegacy
    } else {
        precomputed_curve(mode, gain, t_type)
    }
}

/// Userspace evaluates the very curve that the driver holds, but for the
/// synchronous gain curve, which it evaluates in its legacy form.
pub proof fn lemma_evaluated_matches_precomputed(mode: accel_mode, gain: bool, t_type: tiered_type)
    ensures
        spec_evaluated_curve(mode, gain, t_type) == spec_precomputed_curve(mode, gain, t_type)
            <==> !(mode == accel_mode::synchronous && gain),
        mode == accel_mode::synchronous && gain ==> spec_precomputed_curve(mode, gain, t_type)
            == CurveKind::SynchronousGain && spec_evaluated_curve(mode, gain, t_type)
            == CurveKind::SynchronousLegacy,
{
}

/// The steps of the driver's pipeline that a profile needs: rotation unless
/// it is by zero degrees, snapping likewise, clamping when the maximum speed
/// is positive and not below the minimum, directional weights when the
/// speed is taken as a whole and the weights differ, per-direction scaling
/// where a ratio is not one, and the reference angle where snapping or
/// directional weights need it.
pub fn compute_flags(prof: &profile) -> (f: modifier_flags)
    ensures
        f.clamp_speed == (spec_lt(ZERO, prof.speed_max) && spec_le(prof.speed_min, prof.speed_max)),
        f.apply_rotate == !spec_eq(prof.degrees_rotation, ZERO),
        f.apply_snap == !spec_eq(prof.degrees_snap, ZERO),
        f.apply_directional_weight == (prof.speed_processor_args.whole && !spec_eq(
            prof.range_weights.x,
            prof.range_weights.y,
        )),
        f.compute_ref_angle == (f.apply_snap || f.apply_directional_weight),
        f.apply_dir_mul_x == !spec_eq(prof.lr_output_dpi_ratio, ONE),
        f.apply_dir_mul_y == !spec_eq(prof.ud_output_dpi_ratio, ONE),
{
    let clamp_speed = lt(ZERO, prof.speed_max) && le(prof.speed_min, prof.speed_max);
    let apply_rotate = !eq(prof.degrees_rotation, ZERO);
    let apply_snap = !eq(prof.degrees_snap, ZERO);
    let apply_directional_weight = prof.speed_processor_args.whole && !eq(
        prof.range_weights.x,
        prof.range_weights.y,
    );
    let compute_ref_angle = apply_snap || apply_directional_weight;
    modifier_flags {
        apply_rotate,
        compute_ref_angle,
        apply_snap,
        clamp_speed,
        apply_directional_weight,
        apply_dir_mul_x: !eq(prof.lr_output_dpi_ratio, ONE),
        apply_dir_mul_y: !eq(prof.ud_output_dpi_ratio, ONE),
    }
}

/// Where an input speed falls in a lookup table, and so how the curve's
/// value is read from it.
#[derive(Copy, Clone, Debug, PartialEq, Eq, Structural)]
pub enum LookupHit {
    /// The speed is not above zero, or the table has fewer than two points:
    /// the sensitivity is 1.
    Identity,
    /// The speed equals the input of point `index`: its output is taken.
    Exact { index: usize },
    /// The speed lies beyond the input of point `upper - 1`: the output is
    /// interpolated between points `upper - 1` and `upper`.
    Between { upper: usize },
    /// The speed lies before the first point: its output is taken, divided
    /// by its input when `scaled`.
    First { scaled: bool },
    /// The search reaches past the table's capacity.
    OutOfRange,
}

/// The binary search of a lookup table between probes `lo` and `hi`, over
/// the first `size` points whose inputs are `xs`.
pub open spec fn search(xs: Seq<u64>, size: int, x: u64, lo: int, hi: int) -> LookupHit
    decreases hi - lo + 1,
{
    if lo <= hi {
        let mid = (lo + hi) / 2;
        if mid >= xs.len() {
            LookupHit::OutOfRange
        } else if spec_lt(x, xs[mid]) {
            search(xs, size, x, lo, mid - 1)
        } else if spec_lt(xs[mid], x) {
            search(xs, size, x, mid + 1, hi)
        } else {
            LookupHit::Exact { index: mid as usize }
        }
    } else if 0 < lo < size {
        if lo < xs.len() {
            LookupHit::Between { upper: lo as usize }
        } else {
            LookupHit::OutOfRange
        }
    } else {
        LookupHit::First { scaled: false }
    }
}

/// Where `x` falls in a table of `size` points whose inputs are `xs`, the
/// outputs being divided by the input when `velocity`.
pub open spec fn spec_locate(xs: Seq<u64>, size: int, velocity: bool, x: u64) -> LookupHit {
    if spec_le(x, ZERO) || size < 2 {
        LookupHit::Identity
    } else {
        match search(xs, size, x, 0, size - 2) {
            LookupHit::First { .. } => LookupHit::First { scaled: velocity && spec_lt(ZERO, xs[0]) },
            h => h,
        }
    }
}

/// Finds where `x` falls in a table of `size` points whose inputs are `xs`
/// (the table's full capacity): by binary search over all points but the
/// last, which only bounds the final segment.
pub fn locate(xs: &Vec<u64>, size: i32, velocity: bool, x: u64) -> (h: LookupHit)
    requires
        xs@.len() == LUT_POINTS_CAPACITY,
    ensures
        h == spec_locate(xs@, size as int, velocity, x),
{
    if le(x, ZERO) || size < 2 {
        return LookupHit::Identity;
    }
    let mut lo: usize = 0;
    let mut hi: i64 = (size - 2) as i64;
    while (lo as i64) <= hi
        invariant
            xs@.len() == LUT_POINTS_CAPACITY,
            size >= 2,
            !spec_le(x, ZERO),
            0 <= lo <= hi + 1,
            hi < size,
            lo <= i32::MAX,
            search(xs@, size as int, x, lo as int, hi as int) == search(
                xs@,
                size as int,
                x,
                0,
                size - 2,
            ),
        decreases hi - lo + 1,
    {
        let mid = ((lo as i64 + hi) / 2) as usize;
        if mid >= xs.len() {
            return LookupHit::OutOfRange;
        }
        let px = xs[mid];
        if lt(x, px) {
            hi = mid as i64 - 1;
        } else if lt(px, x) {
            lo = mid + 1;
        } else {
            return LookupHit::Exact { index: mid };
        }
    }
    if lo > 0 && (lo as i64) < size as i64 {
        if lo < xs.len() {
            LookupHit::Between { upper: lo }
        } else {
            LookupHit::OutOfRange
        }
    } else {
        LookupHit::First { scaled: velocity && lt(ZERO, xs[0]) }
    }
}

/// The search over a table of at most `LUT_POINTS_CAPACITY` points never
/// reaches past its capacity.
proof fn lemma_search_within_capacity(xs: Seq<u64>, size: int, x: u64, lo: int, hi: int)
    requires
        xs.len() == LUT_POINTS_CAPACITY,
        size <= LUT_POINTS_CAPACITY,
        0 <= lo,
        hi <= size - 2,
    ensures
        !(search(xs, size, x, lo, hi) is OutOfRange),
    decreases hi - lo + 1,
{
    if lo <= hi {
        let mid = (lo + hi) / 2;
        if spec_lt(x, xs[mid]) {
            lemma_search_within_capacity(xs, size, x, lo, mid - 1);
        } else if spec_lt(xs[mid], x) {
            lemma_search_within_capacity(xs, size, x, mid + 1, hi);
        }
    }
}

/// A table of at most `LUT_POINTS_CAPACITY` points is never read past its
/// end, whatever its contents and the speed.
pub proof fn lemma_locate_within_capacity(xs: Seq<u64>, size: int, velocity: bool, x: u64)
    requires
        xs.len() == LUT_POINTS_CAPACITY,
        size <= LUT_POINTS_CAPACITY,
    ensures
        !(spec_locate(xs, size, velocity, x) is OutOfRange),
{
    if !(spec_le(x, ZERO) || size < 2) {
        lemma_search_within_capacity(xs, size, x, 0, size - 2);
    }
}

/// The first `size` inputs of the table are doubles that strictly increase.
pub open spec fn strictly_increasing(xs: Seq<u64>, size: int) -> bool {
    &&& forall|i: int| 0 <= i < size ==> !spec_is_nan(#[trigger] xs[i])
    &&& forall|i: int, j: int| 0 <= i < j < size ==> spec_lt(#[trigger] xs[i], #[trigger] xs[j])
}

/// The search keeps every probe below `lo` under `x` and every probe above
/// `hi` over it; so on a sorted table it ends at the segment holding `x`.
proof fn lemma_search_sorted(xs: Seq<u64>, size: int, x: u64, lo: int, hi: int)
    requires
        xs.len() == LUT_POINTS_CAPACITY,
        2 <= size <= xs.len(),
        strictly_increasing(xs, size),
        !spec_is_nan(x),
        0 <= lo <= hi + 1,
        hi <= size - 2,
        forall|i: int| 0 <= i < lo ==> spec_lt(#[trigger] xs[i], x),
        forall|i: int| hi < i <= size - 2 ==> spec_lt(x, #[trigger] xs[i]),
    ensures
        match search(xs, size, x, lo, hi) {
            LookupHit::Exact { index } => index <= size - 2 && spec_eq(x, xs[index as int]),
            LookupHit::Between { upper } => 1 <= upper <= size - 1 && spec_lt(
                xs[upper - 1],
                x,
            ) && (upper < size - 1 ==> spec_lt(x, xs[upper as int])),
            LookupHit::First { .. } => spec_lt(x, xs[0]),
            _ => false,
        },
    decreases hi - lo + 1,
{
    if lo <= hi {
        let mid = (lo + hi) / 2;
        if spec_lt(x, xs[mid]) {
            assert forall|i: int| mid - 1 < i <= size - 2 implies spec_lt(x, #[trigger] xs[i]) by {
                if i > mid {
                    assert(spec_lt(xs[mid], xs[i]));
                }
            }
            lemma_search_sorted(xs, size, x, lo, mid - 1);
            assert(search(xs, size, x, lo, hi) == search(xs, size, x, lo, mid - 1));
        } else if spec_lt(xs[mid], x) {
            assert forall|i: int| 0 <= i < mid + 1 implies spec_lt(#[trigger] xs[i], x) by {
                if i < mid {
                    assert(spec_lt(xs[i], xs[mid]));
                }
            }
            lemma_search_sorted(xs, size, x, mid + 1, hi);
            assert(search(xs, size, x, lo, hi) == search(xs, size, x, mid + 1, hi));
        } else {
            crate::binary64::lemma_trichotomy(x, xs[mid]);
            assert(search(xs, size, x, lo, hi) == LookupHit::Exact { index: mid as usize });
            assert(spec_eq(x, xs[mid]));
        }
    } else if 0 < lo < size {
        assert(spec_lt(xs[lo - 1], x));
        assert(search(xs, size, x, lo, hi) == LookupHit::Between { upper: lo as usize });
        if lo < size - 1 {
            assert(spec_lt(x, xs[lo]));
        }
    } else {
        assert(lo == 0);
        assert(spec_lt(x, xs[0]));
        assert(search(xs, size, x, lo, hi) == LookupHit::First { scaled: false });
    }
}

/// On a table whose inputs strictly increase, a speed above zero is found
/// where it lies: at the point with its input, between the two points whose
/// inputs enclose it (the last segment extended beyond the last point), or
/// before the first point.
pub proof fn lemma_locate_sorted(xs: Seq<u64>, size: int, velocity: bool, x: u64)
    requires
        xs.len() == LUT_POINTS_CAPACITY,
        2 <= size <= xs.len(),
        strictly_increasing(xs, size),
        !spec_is_nan(x),
        spec_lt(ZERO, x),
    ensures
        match spec_locate(xs, size, velocity, x) {
            LookupHit::Exact { index } => index <= size - 2 && spec_eq(x, xs[index as int]),
            LookupHit::Between { upper } => 1 <= upper <= size - 1 && spec_lt(
                xs[upper - 1],
                x,
            ) && (upper < size - 1 ==> spec_lt(x, xs[upper as int])),
            LookupHit::First { scaled } => spec_lt(x, xs[0]) && scaled == (velocity && spec_lt(
                ZERO,
                xs[0],
            )),
            _ => false,
        },
{
    lemma_search_sorted(xs, size, x, 0, size - 2);
}

/// The zones of the linear tiered curve, in the order of the input speed.
#[derive(Copy, Clone, Debug, PartialEq, Eq, Structural)]
pub enum TieredLinearZone {
    /// At or below the first offset: the first multiplier.
    Base,
    /// On the first ramp: interpolated from the first to the second multiplier.
    FirstRamp,
    /// Between the ramps: the second multiplier.
    Middle,
    /// On the second ramp: interpolated from the second to the third multiplier.
    SecondRamp,
    /// Beyond the second ramp: the third multiplier.
    Top,
}

/// Where the linear tiered curve's ramps start and end, and the inverses of
/// their lengths (zero for a ramp of no length).
#[derive(Copy, Clone, Debug, PartialEq, Eq, Structural)]
pub struct TieredLinearBreaks {
    pub x1: u64,
    pub x1_end: u64,
    pub inv_trans1: u64,
    pub x2: u64,
    pub x2_end: u64,
    pub inv_trans2: u64,
}

/// The zone of the linear tiered curve that `x` lies in; a ramp of no
/// length is a step to the next multiplier.
pub open spec fn spec_tiered_linear_zone(b: TieredLinearBreaks, x: u64) -> TieredLinearZone {
    if spec_le(x, b.x1) {
        TieredLinearZone::Base
    } else if spec_lt(x, b.x1_end) {
        if spec_le(b.inv_trans1, ZERO) {
            TieredLinearZone::Middle
        } else {
            TieredLinearZone::FirstRamp
        }
    } else if spec_le(x, b.x2) {
        TieredLinearZone::Middle
    } else if spec_lt(x, b.x2_end) {
        if spec_le(b.inv_trans2, ZERO) {
            TieredLinearZone::Top
        } else {
            TieredLinearZone::SecondRamp
        }
    } else {
        TieredLinearZone::Top
    }
}

/// The zone of the linear tiered curve that `x` lies in.
pub fn tiered_linear_zone(b: &TieredLinearBreaks, x: u64) -> (z: TieredLinearZone)
    ensures
        z == spec_tiered_linear_zone(*b, x),
{
    if le(x, b.x1) {
        TieredLinearZone::Base
    } else if lt(x, b.x1_end) {
        if le(b.inv_trans1, ZERO) {
            TieredLinearZone::Middle
        } else {
            TieredLinearZone::FirstRamp
        }
    } else if le(x, b.x2) {
        TieredLinearZone::Middle
    } else if lt(x, b.x2_end) {
        if le(b.inv_trans2, ZERO) {
            TieredLinearZone::Top
        } else {
            TieredLinearZone::SecondRamp
        }
    } else {
        TieredLinearZone::Top
    }
}

/// The rank of a zone along the input speed.
pub open spec fn linear_zone_rank(z: TieredLinearZone) -> int {
    match z {
        TieredLinearZone::Base => 0,
        TieredLinearZone::FirstRamp => 1,
        TieredLinearZone::Middle => 2,
        TieredLinearZone::SecondRamp => 3,
        TieredLinearZone::Top => 4,
    }
}

/// The breaks are numbers in order: each ramp starts before it ends, and
/// the first ends no later than the second starts.
pub open spec fn breaks_ordered(b: TieredLinearBreaks) -> bool {
    &&& !spec_is_nan(b.x1) && !spec_is_nan(b.x1_end) && !spec_is_nan(b.x2) && !spec_is_nan(
        b.x2_end,
    ) && !spec_is_nan(b.inv_trans1) && !spec_is_nan(b.inv_trans2)
    &&& spec_le(b.x1, b.x1_end) && spec_le(b.x1_end, b.x2) && spec_le(b.x2, b.x2_end)
}

/// With ordered breaks, a faster input never lies in an earlier zone: the
/// curve climbs through its plateaus and ramps in order.
pub proof fn lemma_tiered_linear_zones_in_order(b: TieredLinearBreaks, x: u64, y: u64)
    requires
        breaks_ordered(b),
        !spec_is_nan(x),
        !spec_is_nan(y),
        spec_le(x, y),
    ensures
        linear_zone_rank(spec_tiered_linear_zone(b, x)) <= linear_zone_rank(
            spec_tiered_linear_zone(b, y),
        ),
{
}

/// The zones of the natural tiered curve.
#[derive(Copy, Clone, Debug, PartialEq, Eq, Structural)]
pub enum TieredNaturalZone {
    /// The first multiplier: at or below the first offset, or before the
    /// second offset when the first tier does not change the multiplier.
    Base,
    /// Before the second offset: decaying toward the second multiplier.
    FirstDecay,
    /// From the second offset on, when the second tier does not change the
    /// multiplier: linear in the speed.
    SecondLinear,
    /// From the second offset on: decaying toward the third multiplier.
    SecondDecay,
}

/// The zone of the natural tiered curve that `x` lies in, for offsets `x1`,
/// `x2` and changes of multiplier `l1`, `l2`.
pub open spec fn spec_tiered_natural_zone(x1: u64, x2: u64, l1: u64, l2: u64, x: u64) -> TieredNaturalZone {
    if spec_le(x, x1) {
        TieredNaturalZone::Base
    } else if spec_lt(x, x2) {
        if spec_eq(l1, ZERO) {
            TieredNaturalZone::Base
        } else {
            TieredNaturalZone::FirstDecay
        }
    } else if spec_eq(l2, ZERO) {
        TieredNaturalZone::SecondLinear
    } else {
        TieredNaturalZone::SecondDecay
    }
}

/// The zone of the natural tiered curve that `x` lies in.
pub fn tiered_natural_zone(x1: u64, x2: u64, l1: u64, l2: u64, x: u64) -> (z: TieredNaturalZone)
    ensures
        z == spec_tiered_natural_zone(x1, x2, l1, l2, x),
{
    if le(x, x1) {
        TieredNaturalZone::Base
    } else if lt(x, x2) {
        if eq(l1, ZERO) {
            TieredNaturalZone::Base
        } else {
            TieredNaturalZone::FirstDecay
        }
    } else if eq(l2, ZERO) {
        TieredNaturalZone::SecondLinear
    } else {
        TieredNaturalZone::SecondDecay
    }
}

} // verus!

verus! {

/// The parts of the jump curve.
#[derive(Copy, Clone, Debug, PartialEq, Eq, Structural)]
pub enum JumpBranch {
    /// The input speed is not above zero (gain form only): sensitivity 1.
    Identity,
    /// The step is smoothed: the sigmoid, or its integral for the gain form.
    Smooth,
    /// Before a sharp step: sensitivity 1.
    BeforeStep,
    /// At or beyond a sharp step: the step's height applies.
    AfterStep,
}

/// The part of the jump curve that `x` falls in, for a step at `step_x`
/// smoothed at rate `smooth_rate` (zero for a sharp step).
pub open spec fn spec_jump_branch(gain: bool, smooth_rate: u64, step_x: u64, x: u64) -> JumpBranch {
    if gain && spec_le(x, ZERO) {
        JumpBranch::Identity
    } else if !spec_eq(smooth_rate, ZERO) {
        JumpBranch::Smooth
    } else if spec_lt(x, step_x) {
        JumpBranch::BeforeStep
    } else {
        JumpBranch::AfterStep
    }
}

/// The part of the jump curve that `x` falls in.
pub fn jump_branch(gain: bool, smooth_rate: u64, step_x: u64, x: u64) -> (j: JumpBranch)
    ensures
        j == spec_jump_branch(gain, smooth_rate, step_x, x),
{
    if gain && le(x, ZERO) {
        JumpBranch::Identity
    } else if !eq(smooth_rate, ZERO) {
        JumpBranch::Smooth
    } else if lt(x, step_x) {
        JumpBranch::BeforeStep
    } else {
        JumpBranch::AfterStep
    }
}

} // verus!

verus! {

/// The mode whose curve a curve struct computes.
pub open spec fn curve_mode(k: CurveKind) -> accel_mode {
    match k {
        CurveKind::ClassicGain | CurveKind::ClassicLegacy => accel_mode::classic,
        CurveKind::JumpGain | CurveKind::JumpLegacy => accel_mode::jump,
        CurveKind::NaturalGain | CurveKind::NaturalLegacy => accel_mode::natural,
        CurveKind::PowerGain | CurveKind::PowerLegacy => accel_mode::power,
        CurveKind::TieredLinear | CurveKind::TieredNaturalGain
        | CurveKind::TieredNaturalLegacy => accel_mode::tiered,
        CurveKind::SynchronousGain | CurveKind::SynchronousLegacy => accel_mode::synchronous,
        CurveKind::Lookup => accel_mode::lookup,
        CurveKind::Noaccel => accel_mode::noaccel,
    }
}

/// The curve struct computes the gain form of its curve.
pub open spec fn is_gain_form(k: CurveKind) -> bool {
    ||| k == CurveKind::ClassicGain
    ||| k == CurveKind::JumpGain
    ||| k == CurveKind::NaturalGain
    ||| k == CurveKind::PowerGain
    ||| k == CurveKind::TieredNaturalGain
    ||| k == CurveKind::SynchronousGain
}

/// The curve struct computes the legacy form of its curve.
pub open spec fn is_legacy_form(k: CurveKind) -> bool {
    ||| k == CurveKind::ClassicLegacy
    ||| k == CurveKind::JumpLegacy
    ||| k == CurveKind::NaturalLegacy
    ||| k == CurveKind::PowerLegacy
    ||| k == CurveKind::TieredNaturalLegacy
    ||| k == CurveKind::SynchronousLegacy
}

/// The mode has a gain and a legacy form (all but lookup, no acceleration
/// and the linear tiered curve).
pub open spec fn has_two_forms(mode: accel_mode, t_type: tiered_type) -> bool {
    mode != accel_mode::lookup && mode != accel_mode::noaccel && !(mode == accel_mode::tiered
        && t_type == tiered_type::linear)
}

/// The curve precomputed for the driver is a curve of the profile's mode; it
/// is the gain form exactly when gain is set and the legacy form exactly
/// when it is not, for every mode that has both forms; the linear tiered
/// curve, the lookup table and no acceleration have one form each.
pub proof fn lemma_precomputed_curve_follows_settings(mode: accel_mode, gain: bool, t_type: tiered_type)
    ensures
        curve_mode(spec_precomputed_curve(mode, gain, t_type)) == mode,
        has_two_forms(mode, t_type) ==> is_gain_form(spec_precomputed_curve(mode, gain, t_type))
            == gain,
        has_two_forms(mode, t_type) ==> is_legacy_form(spec_precomputed_curve(mode, gain, t_type))
            == !gain,
        !has_two_forms(mode, t_type) ==> !is_gain_form(spec_precomputed_curve(mode, gain, t_type))
            && !is_legacy_form(spec_precomputed_curve(mode, gain, t_type)),
        mode == accel_mode::tiered ==> (spec_precomputed_curve(mode, gain, t_type)
            == CurveKind::TieredLinear <==> t_type == tiered_type::linear),
{
}

/// Userspace evaluates a curve of the profile's mode, in the form that gain
/// selects, but the synchronous curve, which it always evaluates in its
/// legacy form.
pub proof fn lemma_evaluated_curve_follows_settings(mode: accel_mode, gain: bool, t_type: tiered_type)
    ensures
        curve_mode(spec_evaluated_curve(mode, gain, t_type)) == mode,
        has_two_forms(mode, t_type) && mode != accel_mode::synchronous ==> is_gain_form(
            spec_evaluated_curve(mode, gain, t_type),
        ) == gain && is_legacy_form(spec_evaluated_curve(mode, gain, t_type)) == !gain,
        mode == accel_mode::synchronous ==> is_legacy_form(spec_evaluated_curve(mode, gain, t_type)),
        !has_two_forms(mode, t_type) ==> !is_gain_form(spec_evaluated_curve(mode, gain, t_type))
            && !is_legacy_form(spec_evaluated_curve(mode, gain, t_type)),
        mode == accel_mode::tiered ==> (spec_evaluated_curve(mode, gain, t_type)
            == CurveKind::TieredLinear <==> t_type == tiered_type::linear),
{
}

/// The smoothing decides the jump curve's shape alike in both forms: a
/// rate that is not zero smooths the step wherever the gain form does not
/// take the identity (any speed for the legacy form, a speed not at or
/// below zero for the gain form); a zero rate gives a sharp step at
/// `step_x`, sensitivity 1 before it. Above zero both forms take the same
/// branch.
pub proof fn lemma_jump_branch_laws(gain: bool, smooth_rate: u64, step_x: u64, x: u64)
    ensures
        spec_jump_branch(gain, smooth_rate, step_x, x) == JumpBranch::Identity <==> gain
            && spec_le(x, ZERO),
        !(gain && spec_le(x, ZERO)) && !spec_eq(smooth_rate, ZERO) ==> spec_jump_branch(
            gain,
            smooth_rate,
            step_x,
            x,
        ) == JumpBranch::Smooth,
        !(gain && spec_le(x, ZERO)) && spec_eq(smooth_rate, ZERO) ==> (spec_jump_branch(
            gain,
            smooth_rate,
            step_x,
            x,
        ) == JumpBranch::BeforeStep <==> spec_lt(x, step_x)),
        spec_jump_branch(gain, smooth_rate, step_x, x) == JumpBranch::AfterStep ==> spec_eq(
            smooth_rate,
            ZERO,
        ) && !spec_lt(x, step_x),
        spec_lt(ZERO, x) ==> spec_jump_branch(true, smooth_rate, step_x, x) == spec_jump_branch(
            false,
            smooth_rate,
            step_x,
            x,
        ),
{
}

/// The zones of the linear tiered curve by where `x` lies: at or below the
/// first offset the base; inside the first ramp the ramp unless its inverse
/// length is at or below zero (then the second multiplier); and likewise
/// for the second ramp. Each ramp's inverse length matters on its own ramp
/// only.
pub proof fn lemma_tiered_linear_zone_laws(b: TieredLinearBreaks, x: u64, inv1: u64, inv2: u64)
    ensures
        spec_le(x, b.x1) ==> spec_tiered_linear_zone(b, x) == TieredLinearZone::Base,
        !spec_le(x, b.x1) && spec_lt(x, b.x1_end) ==> spec_tiered_linear_zone(b, x) == (if spec_le(
            b.inv_trans1,
            ZERO,
        ) {
            TieredLinearZone::Middle
        } else {
            TieredLinearZone::FirstRamp
        }),
        !spec_le(x, b.x1) && !spec_lt(x, b.x1_end) && spec_le(x, b.x2) ==> spec_tiered_linear_zone(
            b,
            x,
        ) == TieredLinearZone::Middle,
        !spec_le(x, b.x1) && !spec_lt(x, b.x1_end) && !spec_le(x, b.x2) && spec_lt(x, b.x2_end)
            ==> spec_tiered_linear_zone(b, x) == (if spec_le(b.inv_trans2, ZERO) {
            TieredLinearZone::Top
        } else {
            TieredLinearZone::SecondRamp
        }),
        !spec_le(x, b.x1) && !spec_lt(x, b.x1_end) && !spec_le(x, b.x2) && !spec_lt(x, b.x2_end)
            ==> spec_tiered_linear_zone(b, x) == TieredLinearZone::Top,
        spec_le(x, b.x2) || spec_lt(x, b.x1_end) ==> spec_tiered_linear_zone(
            TieredLinearBreaks { inv_trans2: inv2, ..b },
            x,
        ) == spec_tiered_linear_zone(b, x),
        !spec_lt(x, b.x1_end) ==> spec_tiered_linear_zone(
            TieredLinearBreaks { inv_trans1: inv1, ..b },
            x,
        ) == spec_tiered_linear_zone(b, x),
        spec_tiered_linear_zone(b, x) == TieredLinearZone::FirstRamp ==> !spec_le(x, b.x1)
            && spec_lt(x, b.x1_end) && !spec_le(b.inv_trans1, ZERO),
        spec_tiered_linear_zone(b, x) == TieredLinearZone::SecondRamp ==> !spec_le(x, b.x2)
            && spec_lt(x, b.x2_end) && !spec_le(b.inv_trans2, ZERO),
{
}

/// The zones of the natural tiered curve by where `x` lies: at or below the
/// first offset the base; before the second offset the first decay, unless
/// the first tier changes nothing (then the base); from the second offset
/// on the second decay, unless the second tier changes nothing (then
/// linear). Each tier's change matters within its own tier only.
pub proof fn lemma_tiered_natural_zone_laws(x1: u64, x2: u64, l1: u64, l2: u64, x: u64, m1: u64, m2: u64)
    ensures
        spec_le(x, x1) ==> spec_tiered_natural_zone(x1, x2, l1, l2, x) == TieredNaturalZone::Base,
        !spec_le(x, x1) && spec_lt(x, x2) ==> spec_tiered_natural_zone(x1, x2, l1, l2, x) == (if spec_eq(
            l1,
            ZERO,
        ) {
            TieredNaturalZone::Base
        } else {
            TieredNaturalZone::FirstDecay
        }),
        !spec_le(x, x1) && !spec_lt(x, x2) ==> spec_tiered_natural_zone(x1, x2, l1, l2, x) == (if spec_eq(
            l2,
            ZERO,
        ) {
            TieredNaturalZone::SecondLinear
        } else {
            TieredNaturalZone::SecondDecay
        }),
        spec_le(x, x1) || spec_lt(x, x2) ==> spec_tiered_natural_zone(x1, x2, l1, m2, x)
            == spec_tiered_natural_zone(x1, x2, l1, l2, x),
        !spec_lt(x, x2) ==> spec_tiered_natural_zone(x1, x2, m1, l2, x) == spec_tiered_natural_zone(
            x1,
            x2,
            l1,
            l2,
            x,
        ),
{
}

} // verus!

verus! {

/// A speed at or below zero, or a table of fewer than two points, reads no
/// table: the sensitivity is 1; any other speed is searched for. Before the
/// first point the output is divided by the input exactly when the table
/// holds velocities and that input is above zero.
pub proof fn lemma_locate_identity(xs: Seq<u64>, size: int, velocity: bool, x: u64)
    ensures
        spec_locate(xs, size, velocity, x) == LookupHit::Identity <==> (spec_le(x, ZERO) || size
            < 2),
        spec_locate(xs, size, velocity, x) matches LookupHit::First { scaled } ==> scaled == (
        velocity && spec_lt(ZERO, xs[0])),
{
    if !(spec_le(x, ZERO) || size < 2) {
        lemma_search_never_identity(xs, size, x, 0, size - 2);
    }
}

/// The search ends at a point, a segment, before the first point, or past
/// the capacity; never at the identity.
proof fn lemma_search_never_identity(xs: Seq<u64>, size: int, x: u64, lo: int, hi: int)
    ensures
        !(search(xs, size, x, lo, hi) is Identity),
        search(xs, size, x, lo, hi) matches LookupHit::First { scaled } ==> !scaled,
    decreases hi - lo + 1,
{
    if lo <= hi {
        let mid = (lo + hi) / 2;
        if mid < xs.len() {
            if spec_lt(x, xs[mid]) {
                lemma_search_never_identity(xs, size, x, lo, mid - 1);
            } else if spec_lt(xs[mid], x) {
                lemma_search_never_identity(xs, size, x, mid + 1, hi);
            }
        }
    }
}

} // verus!
