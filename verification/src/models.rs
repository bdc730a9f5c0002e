//! The data that the driver receives, as the driver's own header lays it out.
//!
//! Every `f64` of the driver's structs is held as its bit pattern (see
//! `binary64`). The lookup table of `accel_args` holds the doubles of the
//! settings; the driver stores them as `f32`, and that narrowing happens where
//! the struct is laid out for the driver.
#![allow(non_camel_case_types)]

use vstd::prelude::*;

use crate::binary64::{
    FIFTEEN, FIVE, FIVE_THOUSANDTHS, ONE, ONE_AND_A_HALF, ONE_HALF, ONE_TENTH, ONE_TWENTIETH, TWO,
    ZERO,
};

verus! {

/// Capacity of a profile or device name, in UTF-16 units.
pub const MAX_NAME_LEN: usize = 256;

/// Capacity of a device id, in UTF-16 units.
pub const MAX_DEV_ID_LEN: usize = 200;

/// Number of raw values in a lookup table (two per point).
pub const LUT_RAW_DATA_CAPACITY: usize = 514;

/// Number of points in a lookup table.
pub const LUT_POINTS_CAPACITY: usize = 257;

/// Size of the buffer that holds the precomputed curve of one axis.
pub const ACCEL_UNION_SIZE: usize = 72;

/// The acceleration curve of an axis.
#[derive(Copy, Clone, Debug, PartialEq, Eq, Structural)]
pub enum accel_mode {
    classic,
    jump,
    natural,
    synchronous,
    power,
    lookup,
    tiered,
    noaccel,
}

impl accel_mode {
    /// The value the driver's header gives this mode.
    pub open spec fn spec_code(self) -> i32 {
        match self {
            accel_mode::classic => 0,
            accel_mode::jump => 1,
            accel_mode::natural => 2,
            accel_mode::synchronous => 3,
            accel_mode::power => 4,
            accel_mode::lookup => 5,
            accel_mode::tiered => 6,
            accel_mode::noaccel => 7,
        }
    }

    /// The value the driver's header gives this mode.
    pub fn code(&self) -> (c: i32)
        ensures
            c == self.spec_code(),
    {
        match self {
            accel_mode::classic => 0,
            accel_mode::jump => 1,
            accel_mode::natural => 2,
            accel_mode::synchronous => 3,
            accel_mode::power => 4,
            accel_mode::lookup => 5,
            accel_mode::tiered => 6,
            accel_mode::noaccel => 7,
        }
    }

    /// The mode that the driver's header gives `code`, if any.
    pub fn from_code(code: i32) -> (m: Option<accel_mode>)
        ensures
            m matches Some(m) ==> m.spec_code() == code,
            m is None <==> !(0 <= code <= 7),
    {
        match code {
            0 => Some(accel_mode::classic),
            1 => Some(accel_mode::jump),
            2 => Some(accel_mode::natural),
            3 => Some(accel_mode::synchronous),
            4 => Some(accel_mode::power),
            5 => Some(accel_mode::lookup),
            6 => Some(accel_mode::tiered),
            7 => Some(accel_mode::noaccel),
            _ => None,
        }
    }
}

/// Each mode has its own value in the driver's header, so reading a
/// mode's value back gives the mode.
pub proof fn lemma_accel_mode_code_roundtrip(m: accel_mode, n: accel_mode)
    ensures
        m.spec_code() == n.spec_code() ==> m == n,
        0 <= m.spec_code() <= 7,
{
}

impl Default for accel_mode {
    fn default() -> (m: Self)
        ensures
            m == accel_mode::noaccel,
    {
        accel_mode::noaccel
    }
}

/// How the cap of a curve is given.
#[derive(Copy, Clone, Debug, PartialEq, Eq, Structural)]
pub enum cap_mode {
    io,
    in_,
    out,
}

impl cap_mode {
    /// The value the driver's header gives this cap mode.
    pub open spec fn spec_code(self) -> i32 {
        match self {
            cap_mode::io => 0,
            cap_mode::in_ => 1,
            cap_mode::out => 2,
        }
    }

    /// The value the driver's header gives this cap mode.
    pub fn code(&self) -> (c: i32)
        ensures
            c == self.spec_code(),
    {
        match self {
            cap_mode::io => 0,
            cap_mode::in_ => 1,
            cap_mode::out => 2,
        }
    }

    /// The cap mode that the driver's header gives `code`, if any.
    pub fn from_code(code: i32) -> (m: Option<cap_mode>)
        ensures
            m matches Some(m) ==> m.spec_code() == code,
            m is None <==> !(0 <= code <= 2),
    {
        match code {
            0 => Some(cap_mode::io),
            1 => Some(cap_mode::in_),
            2 => Some(cap_mode::out),
            _ => None,
        }
    }
}

impl Default for cap_mode {
    fn default() -> (m: Self)
        ensures
            m == cap_mode::out,
    {
        cap_mode::out
    }
}

/// The shape of the ramps of the tiered curve.
#[derive(Copy, Clone, Debug, PartialEq, Eq, Structural)]
pub enum tiered_type {
    linear,
    natural,
}

impl tiered_type {
    /// The value the driver's header gives this shape.
    pub open spec fn spec_code(self) -> i32 {
        match self {
            tiered_type::linear => 0,
            tiered_type::natural => 1,
        }
    }

    /// The value the driver's header gives this shape.
    pub fn code(&self) -> (c: i32)
        ensures
            c == self.spec_code(),
    {
        match self {
            tiered_type::linear => 0,
            tiered_type::natural => 1,
        }
    }
}

impl Default for tiered_type {
    fn default() -> (t: Self)
        ensures
            t == tiered_type::linear,
    {
        tiered_type::linear
    }
}

/// A pair of doubles, by their bit patterns.
#[derive(Copy, Clone, Debug, PartialEq, Eq, Structural)]
pub struct vec2d {
    pub x: u64,
    pub y: u64,
}

impl Default for vec2d {
    fn default() -> (v: Self)
        ensures
            v.x == ZERO && v.y == ZERO,
    {
        vec2d { x: ZERO, y: ZERO }
    }
}

/// The parameters of the curve of one axis.
#[derive(Copy, Clone)]
pub struct accel_args {
    pub mode: accel_mode,
    pub gain: bool,
    pub input_offset: u64,
    pub output_offset: u64,
    pub acceleration: u64,
    pub decay_rate: u64,
    pub gamma: u64,
    pub motivity: u64,
    pub exponent_classic: u64,
    pub scale: u64,
    pub exponent_power: u64,
    pub limit: u64,
    pub sync_speed: u64,
    pub smooth: u64,
    pub speed1: u64,
    pub speed2: u64,
    pub mid_cap: u64,
    pub speed3: u64,
    pub speed4: u64,
    pub final_cap: u64,
    pub t_type: tiered_type,
    pub tiered_multiplier1: u64,
    pub tiered_input_offset1: u64,
    pub tiered_multiplier2: u64,
    pub tiered_transition1: u64,
    pub tiered_input_offset2: u64,
    pub tiered_multiplier3: u64,
    pub tiered_transition2: u64,
    pub tiered_decay_rate1: u64,
    pub tiered_decay_rate2: u64,
    pub cap: vec2d,
    pub cap_mode: cap_mode,
    /// Number of raw values in `data`: twice the number of points.
    pub length: i32,
    /// The table's x, y pairs as doubles; the driver's layout holds them as
    /// `f32`, narrowed where that layout is written.
    pub data: [u64; LUT_RAW_DATA_CAPACITY],
}

impl accel_args {
    /// The defaults that a fresh curve starts from.
    pub open spec fn is_default(self) -> bool {
        &&& self.mode == accel_mode::noaccel
        &&& self.gain
        &&& self.input_offset == ZERO
        &&& self.output_offset == ZERO
        &&& self.acceleration == FIVE_THOUSANDTHS
        &&& self.decay_rate == ONE_TENTH
        &&& self.gamma == ONE
        &&& self.motivity == ONE_AND_A_HALF
        &&& self.exponent_classic == TWO
        &&& self.scale == ONE
        &&& self.exponent_power == ONE_TWENTIETH
        &&& self.limit == ONE_AND_A_HALF
        &&& self.sync_speed == FIVE
        &&& self.smooth == ONE_HALF
        &&& self.speed1 == ZERO
        &&& self.speed2 == ZERO
        &&& self.mid_cap == ONE
        &&& self.speed3 == ZERO
        &&& self.speed4 == ZERO
        &&& self.final_cap == ONE
        &&& self.t_type == tiered_type::linear
        &&& self.tiered_multiplier1 == ZERO
        &&& self.tiered_input_offset1 == ZERO
        &&& self.tiered_multiplier2 == ZERO
        &&& self.tiered_transition1 == ZERO
        &&& self.tiered_input_offset2 == ZERO
        &&& self.tiered_multiplier3 == ZERO
        &&& self.tiered_transition2 == ZERO
        &&& self.tiered_decay_rate1 == ZERO
        &&& self.tiered_decay_rate2 == ZERO
        &&& self.cap == (vec2d { x: FIFTEEN, y: ONE_AND_A_HALF })
        &&& self.cap_mode == cap_mode::out
        &&& self.length == 0
        &&& forall|i: int| 0 <= i < LUT_RAW_DATA_CAPACITY ==> self.data[i] == ZERO
    }

    /// Every field zero: the first mode, cap mode and shape, no gain, all
    /// doubles `0.0` and an empty table.
    pub open spec fn is_zeroed(self) -> bool {
        &&& self.mode == accel_mode::classic
        &&& !self.gain
        &&& self.input_offset == ZERO
        &&& self.output_offset == ZERO
        &&& self.acceleration == ZERO
        &&& self.decay_rate == ZERO
        &&& self.gamma == ZERO
        &&& self.motivity == ZERO
        &&& self.exponent_classic == ZERO
        &&& self.scale == ZERO
        &&& self.exponent_power == ZERO
        &&& self.limit == ZERO
        &&& self.sync_speed == ZERO
        &&& self.smooth == ZERO
        &&& self.speed1 == ZERO
        &&& self.speed2 == ZERO
        &&& self.mid_cap == ZERO
        &&& self.speed3 == ZERO
        &&& self.speed4 == ZERO
        &&& self.final_cap == ZERO
        &&& self.t_type == tiered_type::linear
        &&& self.tiered_multiplier1 == ZERO
        &&& self.tiered_input_offset1 == ZERO
        &&& self.tiered_multiplier2 == ZERO
        &&& self.tiered_transition1 == ZERO
        &&& self.tiered_input_offset2 == ZERO
        &&& self.tiered_multiplier3 == ZERO
        &&& self.tiered_transition2 == ZERO
        &&& self.tiered_decay_rate1 == ZERO
        &&& self.tiered_decay_rate2 == ZERO
        &&& self.cap == (vec2d { x: ZERO, y: ZERO })
        &&& self.cap_mode == cap_mode::io
        &&& self.length == 0
        &&& forall|i: int| 0 <= i < LUT_RAW_DATA_CAPACITY ==> self.data[i] == ZERO
    }

    /// A curve whose every field is zero.
    pub fn zeroed() -> (a: accel_args)
        ensures
            a.is_zeroed(),
    {
        accel_args {
            mode: accel_mode::classic,
            gain: false,
            input_offset: ZERO,
            output_offset: ZERO,
            acceleration: ZERO,
            decay_rate: ZERO,
            gamma: ZERO,
            motivity: ZERO,
            exponent_classic: ZERO,
            scale: ZERO,
            exponent_power: ZERO,
            limit: ZERO,
            sync_speed: ZERO,
            smooth: ZERO,
            speed1: ZERO,
            speed2: ZERO,
            mid_cap: ZERO,
            speed3: ZERO,
            speed4: ZERO,
            final_cap: ZERO,
            t_type: tiered_type::linear,
            tiered_multiplier1: ZERO,
            tiered_input_offset1: ZERO,
            tiered_multiplier2: ZERO,
            tiered_transition1: ZERO,
            tiered_input_offset2: ZERO,
            tiered_multiplier3: ZERO,
            tiered_transition2: ZERO,
            tiered_decay_rate1: ZERO,
            tiered_decay_rate2: ZERO,
            cap: vec2d { x: ZERO, y: ZERO },
            cap_mode: cap_mode::io,
            length: 0,
            data: [ZERO; LUT_RAW_DATA_CAPACITY],
        }
    }
}

impl Default for accel_args {
    fn default() -> (a: Self)
        ensures
            a.is_default(),
    {
        accel_args {
            mode: accel_mode::noaccel,
            gain: true,
            input_offset: ZERO,
            output_offset: ZERO,
            acceleration: FIVE_THOUSANDTHS,
            decay_rate: ONE_TENTH,
            gamma: ONE,
            motivity: ONE_AND_A_HALF,
            exponent_classic: TWO,
            scale: ONE,
            exponent_power: ONE_TWENTIETH,
            limit: ONE_AND_A_HALF,
            sync_speed: FIVE,
            smooth: ONE_HALF,
            speed1: ZERO,
            speed2: ZERO,
            mid_cap: ONE,
            speed3: ZERO,
            speed4: ZERO,
            final_cap: ONE,
            t_type: tiered_type::linear,
            tiered_multiplier1: ZERO,
            tiered_input_offset1: ZERO,
            tiered_multiplier2: ZERO,
            tiered_transition1: ZERO,
            tiered_input_offset2: ZERO,
            tiered_multiplier3: ZERO,
            tiered_transition2: ZERO,
            tiered_decay_rate1: ZERO,
            tiered_decay_rate2: ZERO,
            cap: vec2d { x: FIFTEEN, y: ONE_AND_A_HALF },
            cap_mode: cap_mode::out,
            length: 0,
            data: [ZERO; LUT_RAW_DATA_CAPACITY],
        }
    }
}

/// How the input speed is measured.
#[derive(Copy, Clone, Debug, PartialEq, Eq, Structural)]
pub struct speed_args {
    pub whole: bool,
    pub lp_norm: u64,
    pub input_speed_smooth_halflife: u64,
    pub scale_smooth_halflife: u64,
    pub output_speed_smooth_halflife: u64,
}

impl Default for speed_args {
    fn default() -> (s: Self)
        ensures
            s.whole,
            s.lp_norm == TWO,
            s.input_speed_smooth_halflife == ZERO,
            s.scale_smooth_halflife == ZERO,
            s.output_speed_smooth_halflife == ZERO,
    {
        speed_args {
            whole: true,
            lp_norm: TWO,
            input_speed_smooth_halflife: ZERO,
            scale_smooth_halflife: ZERO,
            output_speed_smooth_halflife: ZERO,
        }
    }
}

/// A profile as the driver receives it.
#[derive(Copy, Clone)]
pub struct profile {
    /// The name in UTF-16, NUL-terminated.
    pub name: [u16; MAX_NAME_LEN],
    pub domain_weights: vec2d,
    pub range_weights: vec2d,
    pub accel_x: accel_args,
    pub accel_y: accel_args,
    pub speed_processor_args: speed_args,
    pub output_dpi: u64,
    pub yx_output_dpi_ratio: u64,
    pub lr_output_dpi_ratio: u64,
    pub ud_output_dpi_ratio: u64,
    pub degrees_rotation: u64,
    pub degrees_snap: u64,
    pub speed_min: u64,
    pub speed_max: u64,
}

impl profile {
    /// Every field zero.
    pub open spec fn is_zeroed(self) -> bool {
        &&& forall|i: int| 0 <= i < MAX_NAME_LEN ==> self.name[i] == 0
        &&& self.domain_weights == (vec2d { x: ZERO, y: ZERO })
        &&& self.range_weights == (vec2d { x: ZERO, y: ZERO })
        &&& self.accel_x.is_zeroed()
        &&& self.accel_y.is_zeroed()
        &&& self.speed_processor_args == (speed_args {
            whole: false,
            lp_norm: ZERO,
            input_speed_smooth_halflife: ZERO,
            scale_smooth_halflife: ZERO,
            output_speed_smooth_halflife: ZERO,
        })
        &&& self.output_dpi == ZERO
        &&& self.yx_output_dpi_ratio == ZERO
        &&& self.lr_output_dpi_ratio == ZERO
        &&& self.ud_output_dpi_ratio == ZERO
        &&& self.degrees_rotation == ZERO
        &&& self.degrees_snap == ZERO
        &&& self.speed_min == ZERO
        &&& self.speed_max == ZERO
    }
}

impl Default for profile {
    /// The all-zero profile.
    fn default() -> (p: Self)
        ensures
            p.is_zeroed(),
    {
        profile {
            name: [0u16; MAX_NAME_LEN],
            domain_weights: vec2d { x: ZERO, y: ZERO },
            range_weights: vec2d { x: ZERO, y: ZERO },
            accel_x: accel_args::zeroed(),
            accel_y: accel_args::zeroed(),
            speed_processor_args: speed_args {
                whole: false,
                lp_norm: ZERO,
                input_speed_smooth_halflife: ZERO,
                scale_smooth_halflife: ZERO,
                output_speed_smooth_halflife: ZERO,
            },
            output_dpi: ZERO,
            yx_output_dpi_ratio: ZERO,
            lr_output_dpi_ratio: ZERO,
            ud_output_dpi_ratio: ZERO,
            degrees_rotation: ZERO,
            degrees_snap: ZERO,
            speed_min: ZERO,
            speed_max: ZERO,
        }
    }
}

/// Which steps of its pipeline the driver runs for a profile.
#[derive(Copy, Clone, Debug, PartialEq, Eq, Structural)]
pub struct modifier_flags {
    pub apply_rotate: bool,
    pub compute_ref_angle: bool,
    pub apply_snap: bool,
    pub clamp_speed: bool,
    pub apply_directional_weight: bool,
    pub apply_dir_mul_x: bool,
    pub apply_dir_mul_y: bool,
}

impl Default for modifier_flags {
    /// No step enabled.
    fn default() -> (f: Self)
        ensures
            !f.apply_rotate && !f.compute_ref_angle && !f.apply_snap && !f.clamp_speed
                && !f.apply_directional_weight && !f.apply_dir_mul_x && !f.apply_dir_mul_y,
    {
        modifier_flags {
            apply_rotate: false,
            compute_ref_angle: false,
            apply_snap: false,
            clamp_speed: false,
            apply_directional_weight: false,
            apply_dir_mul_x: false,
            apply_dir_mul_y: false,
        }
    }
}

/// The raw memory that holds the precomputed curve of one axis.
#[derive(Copy, Clone)]
pub struct accel_union {
    pub memory: [u8; ACCEL_UNION_SIZE],
}

impl Default for accel_union {
    /// All bytes zero.
    fn default() -> (u: Self)
        ensures
            forall|i: int| 0 <= i < ACCEL_UNION_SIZE ==> u.memory[i] == 0,
    {
        accel_union { memory: [0u8; ACCEL_UNION_SIZE] }
    }
}

impl accel_union {
    /// Writes the bytes of a curve to the start of the union; the bytes
    /// beyond them keep their value.
    pub fn write(&mut self, value: &[u8])
        requires
            value@.len() <= ACCEL_UNION_SIZE,
        ensures
            forall|i: int|
                0 <= i < value@.len() ==> #[trigger] final(self).memory[i] == value@[i],
            forall|i: int|
                value@.len() <= i < ACCEL_UNION_SIZE ==> #[trigger] final(self).memory[i]
                    == old(self).memory[i],
    {
        let n = value.len();
        let mut k: usize = 0;
        while k < n
            invariant
                n == value@.len(),
                n <= ACCEL_UNION_SIZE,
                k <= n,
                forall|i: int| 0 <= i < k ==> #[trigger] self.memory[i] == value@[i],
                forall|i: int| k <= i < ACCEL_UNION_SIZE ==> #[trigger] self.memory[i]
                    == old(self).memory[i],
            decreases n - k,
        {
            self.memory[k] = value[k];
            k = k + 1;
        }
    }
}

} // verus!
