//! The control state of the vehicle and its kinematics.

use vstd::arithmetic::div_mod::{lemma_div_by_multiple, lemma_div_is_ordered, lemma_div_pos_is_pos};
use vstd::prelude::*;

verus! {

/// Speed mode of the drive: it scales the drive output.
#[derive(Clone, Copy, Debug, PartialEq, Eq, Structural)]
pub enum ControlSpeed {
    Slow,
    Fast,
}

/// The other speed mode.
pub open spec fn toggled(speed: ControlSpeed) -> ControlSpeed {
    match speed {
        ControlSpeed::Slow => ControlSpeed::Fast,
        ControlSpeed::Fast => ControlSpeed::Slow,
    }
}

impl ControlSpeed {
    /// Flips Slow and Fast.
    pub fn toggle(self) -> (r: Self)
        ensures
            r == toggled(self),
    {
        match self {
            Self::Fast => Self::Slow,
            Self::Slow => Self::Fast,
        }
    }

    /// The mode's name, "Slow" or "Fast".
    pub fn to_string(&self) -> (r: String)
        ensures
            r@ == (match *self {
                ControlSpeed::Slow => "Slow"@,
                ControlSpeed::Fast => "Fast"@,
            }),
    {
        match self {
            Self::Fast => "Fast".to_owned(),
            Self::Slow => "Slow".to_owned(),
        }
    }
}

/// Largest magnitude of a stick axis, of throttle and steering, and of the
/// camera accumulators.
pub const AXIS_MAX: i16 = 32767;

/// Full deflection of the view stick for this many milliseconds turns the
/// camera through the whole accumulator range (0.6 degrees per millisecond
/// over 90 degrees).
pub const CAMERA_MS_PER_FULL_TURN: i64 = 150;

/// What the vehicle should currently be doing.
///
/// `last_update` is the time of the last camera integration, in milliseconds
/// on the session clock of the caller (0 when the session starts).
#[derive(Clone, Copy, Debug, PartialEq, Eq, Structural)]
pub struct ControlState {
    pub throttle: i16,
    pub steering: i16,
    pub pan: i16,
    pub tilt: i16,
    pub move_speed: ControlSpeed,
    pub last_update: u64,
}

pub open spec fn abs(x: int) -> int {
    if x < 0 {
        -x
    } else {
        x
    }
}

pub open spec fn max(a: int, b: int) -> int {
    if a < b {
        b
    } else {
        a
    }
}

/// Clamps to `lo ..= hi`.
pub open spec fn clamp(x: int, lo: int, hi: int) -> int {
    if x < lo {
        lo
    } else if x > hi {
        hi
    } else {
        x
    }
}

/// Division rounding toward zero, as a float-to-integer cast of the exact
/// quotient does.
pub open spec fn trunc_div(a: int, d: int) -> int {
    if a >= 0 {
        a / d
    } else {
        -((-a) / d)
    }
}

/// A signed field moved off the most negative `i16`.
pub open spec fn trim_axis(v: i16) -> i16 {
    if v == i16::MIN {
        (i16::MIN + 1) as i16
    } else {
        v
    }
}

/// The state with every signed field moved off the most negative `i16`.
pub open spec fn trimmed(s: ControlState) -> ControlState {
    ControlState {
        throttle: trim_axis(s.throttle),
        steering: trim_axis(s.steering),
        pan: trim_axis(s.pan),
        tilt: trim_axis(s.tilt),
        ..s
    }
}

/// Every signed field lies in `-AXIS_MAX ..= AXIS_MAX`.
pub open spec fn is_trimmed(s: ControlState) -> bool {
    &&& s.throttle > i16::MIN
    &&& s.steering > i16::MIN
    &&& s.pan > i16::MIN
    &&& s.tilt > i16::MIN
}

/// Full-scale drive percentage of a speed mode.
pub open spec fn drive_factor(speed: ControlSpeed) -> int {
    match speed {
        ControlSpeed::Slow => 50,
        ControlSpeed::Fast => 100,
    }
}

/// Common denominator of the mixed left and right values.
pub open spec fn drive_denominator() -> int {
    AXIS_MAX * AXIS_MAX
}

/// Left and right mix of throttle and steering, as numerators over
/// `drive_denominator()`, with `t = throttle / AXIS_MAX` and
/// `s = steering / AXIS_MAX`: without throttle a turn in place (`s`, `-s`);
/// with throttle constant curvature (`t + |t| s`, `t - |t| s`).
pub open spec fn drive_mix(throttle: int, steering: int) -> (int, int) {
    if throttle == 0 {
        (AXIS_MAX * steering, -(AXIS_MAX * steering))
    } else {
        (
            AXIS_MAX * throttle + abs(throttle) * steering,
            AXIS_MAX * throttle - abs(throttle) * steering,
        )
    }
}

/// Left and right drive percentages: the mix divided by the larger of its
/// two magnitudes and 1, scaled to the mode's factor, rounded toward zero.
pub open spec fn tank_drive(s: ControlState) -> (int, int) {
    let f = drive_factor(s.move_speed);
    let (l, r) = drive_mix(s.throttle as int, s.steering as int);
    let m = max(max(abs(l), abs(r)), drive_denominator());
    (trunc_div(f * l, m), trunc_div(f * r, m))
}

/// Camera angle in degrees of an accumulator value.
pub open spec fn camera_angle(v: int) -> int {
    clamp(trunc_div(90 * v, AXIS_MAX as int), -90, 90)
}

/// Milliseconds from `last` to `now`, 0 where `now` is earlier.
pub open spec fn elapsed_ms(last: u64, now: u64) -> int {
    if now >= last {
        now - last
    } else {
        0
    }
}

/// An accumulator advanced at a rate proportional to the deflection `view`
/// for `ms` milliseconds, clamped to `-AXIS_MAX ..= AXIS_MAX`.
pub open spec fn rotated(acc: int, view: int, ms: int) -> int {
    clamp(
        acc + trunc_div(view * ms, CAMERA_MS_PER_FULL_TURN as int),
        -(AXIS_MAX as int),
        AXIS_MAX as int,
    )
}

/// `trunc_div(f * l, m)` lies in `-f ..= f` where `|l| <= m`.
proof fn lemma_scaled_ratio_bound(f: int, l: int, m: int)
    requires
        f >= 0,
        m > 0,
        abs(l) <= m,
    ensures
        -f <= trunc_div(f * l, m) <= f,
        trunc_div(f * (-l), m) == -trunc_div(f * l, m),
{
    let a = f * abs(l);
    assert(0 <= a <= f * m) by (nonlinear_arith)
        requires
            f >= 0,
            0 <= abs(l) <= m,
            a == f * abs(l),
    ;
    lemma_div_is_ordered(a, f * m, m);
    lemma_div_by_multiple(f, m);
    lemma_div_pos_is_pos(a, m);
    assert(f * (-l) == -(f * l)) by (nonlinear_arith);
    assert(l >= 0 ==> f * l == a);
    assert(l < 0 ==> f * (-l) == a);
}

/// `a / d` rounded toward zero.
fn div_toward_zero(a: i64, d: i64) -> (q: i64)
    requires
        d > 0,
        a > i64::MIN,
    ensures
        q == trunc_div(a as int, d as int),
{
    if a >= 0 {
        a / d
    } else {
        -((-a) / d)
    }
}

/// `a / d` rounded toward zero, on wide values.
fn div_toward_zero_wide(a: i128, d: i128) -> (q: i128)
    requires
        d > 0,
        a > i128::MIN,
    ensures
        q == trunc_div(a as int, d as int),
{
    if a >= 0 {
        a / d
    } else {
        -((-a) / d)
    }
}

/// `x` clamped to `-AXIS_MAX ..= AXIS_MAX`.
fn clamp_to_axis(x: i128) -> (r: i16)
    ensures
        r == clamp(x as int, -(AXIS_MAX as int), AXIS_MAX as int),
{
    if x < -(AXIS_MAX as i128) {
        -AXIS_MAX
    } else if x > AXIS_MAX as i128 {
        AXIS_MAX
    } else {
        x as i16
    }
}

impl ControlState {
    /// The neutral state at the start of a session.
    pub open spec fn new_spec() -> Self {
        ControlState {
            throttle: 0,
            steering: 0,
            pan: 0,
            tilt: 0,
            move_speed: ControlSpeed::Slow,
            last_update: 0,
        }
    }

    /// The neutral state at the start of a session (time 0): no drive,
    /// camera centred, slow mode.
    pub fn new() -> (r: Self)
        ensures
            r == Self::new_spec(),
    {
        ControlState {
            throttle: 0,
            steering: 0,
            pan: 0,
            tilt: 0,
            move_speed: ControlSpeed::Slow,
            last_update: 0,
        }
    }

    /// Moves every signed field off the most negative `i16`.
    pub fn trim(self) -> (r: Self)
        ensures
            r == trimmed(self),
            is_trimmed(r),
    {
        let mut s = self;
        if s.throttle == i16::MIN {
            s.throttle = s.throttle + 1;
        }
        if s.steering == i16::MIN {
            s.steering = s.steering + 1;
        }
        if s.pan == i16::MIN {
            s.pan = s.pan + 1;
        }
        if s.tilt == i16::MIN {
            s.tilt = s.tilt + 1;
        }
        s
    }

    /// Left and right track speeds in percent of full speed, within the
    /// mode's factor (50 slow, 100 fast): a turn in place without throttle,
    /// constant curvature with it.
    pub fn as_tank_drive(&self) -> (r: (i8, i8))
        ensures
            r.0 == tank_drive(*self).0,
            r.1 == tank_drive(*self).1,
            -drive_factor(self.move_speed) <= r.0 <= drive_factor(self.move_speed),
            -drive_factor(self.move_speed) <= r.1 <= drive_factor(self.move_speed),
    {
        let k: i64 = AXIS_MAX as i64;
        let t: i64 = self.throttle as i64;
        let s: i64 = self.steering as i64;
        let f: i64 = match self.move_speed {
            ControlSpeed::Slow => 50,
            ControlSpeed::Fast => 100,
        };
        proof {
            lemma_mix_bounds(t as int, s as int);
        }
        let (l, r): (i64, i64) = if t == 0 {
            (k * s, -(k * s))
        } else {
            let at: i64 = if t < 0 {
                -t
            } else {
                t
            };
            (k * t + at * s, k * t - at * s)
        };
        let al: i64 = if l < 0 {
            -l
        } else {
            l
        };
        let ar: i64 = if r < 0 {
            -r
        } else {
            r
        };
        let mut m: i64 = k * k;
        if al > m {
            m = al;
        }
        if ar > m {
            m = ar;
        }
        proof {
            assert(m == max(max(abs(l as int), abs(r as int)), drive_denominator()));
            lemma_tank_drive_bounds(*self);
            assert(-400 * 0x1_0000_0000 <= f * l <= 400 * 0x1_0000_0000) by (nonlinear_arith)
                requires
                    -4 * 0x1_0000_0000 <= l <= 4 * 0x1_0000_0000,
                    0 <= f <= 100,
            ;
            assert(-400 * 0x1_0000_0000 <= f * r <= 400 * 0x1_0000_0000) by (nonlinear_arith)
                requires
                    -4 * 0x1_0000_0000 <= r <= 4 * 0x1_0000_0000,
                    0 <= f <= 100,
            ;
        }
        let left = div_toward_zero(f * l, m);
        let right = div_toward_zero(f * r, m);
        (left as i8, right as i8)
    }

    /// Pan and tilt in degrees, within `-90 ..= 90`.
    pub fn as_camera_angles(&self) -> (r: (i8, i8))
        ensures
            r.0 == camera_angle(self.pan as int),
            r.1 == camera_angle(self.tilt as int),
    {
        (Self::angle_of(self.pan), Self::angle_of(self.tilt))
    }

    fn angle_of(v: i16) -> (r: i8)
        ensures
            r == camera_angle(v as int),
    {
        let d = div_toward_zero(90 * (v as i64), AXIS_MAX as i64);
        if d < -90 {
            -90
        } else if d > 90 {
            90
        } else {
            d as i8
        }
    }

    /// New pan and tilt after the view stick has been held at
    /// (`view_x`, `view_y`) from `last_update` to `curr_time`.
    pub fn get_rotated_camera(&self, view_x: i16, view_y: i16, curr_time: u64) -> (r: (i16, i16))
        ensures
            r.0 == rotated(self.pan as int, view_x as int, elapsed_ms(self.last_update, curr_time)),
            r.1 == rotated(self.tilt as int, view_y as int, elapsed_ms(self.last_update, curr_time)),
    {
        let ms: u64 = if curr_time >= self.last_update {
            curr_time - self.last_update
        } else {
            0
        };
        (Self::rotate(self.pan, view_x, ms), Self::rotate(self.tilt, view_y, ms))
    }

    fn rotate(acc: i16, view: i16, ms: u64) -> (r: i16)
        ensures
            r == rotated(acc as int, view as int, ms as int),
    {
        proof {
            assert(-0x1_0000_0000_0000_0000_0000 <= view * ms <= 0x1_0000_0000_0000_0000_0000)
                by (nonlinear_arith)
                requires
                    -0x8000 <= view <= 0x8000,
                    0 <= ms <= 0xffff_ffff_ffff_ffff,
            ;
        }
        let delta = div_toward_zero_wide(
            (view as i128) * (ms as i128),
            CAMERA_MS_PER_FULL_TURN as i128,
        );
        proof {
            lemma_div_is_ordered(abs(view * ms), 0x1_0000_0000_0000_0000_0000, 150);
            lemma_div_pos_is_pos(abs(view * ms), 150);
        }
        clamp_to_axis(acc as i128 + delta)
    }
}

/// Bounds of the mixed values, for overflow.
proof fn lemma_mix_bounds(t: int, s: int)
    requires
        -0x8000 <= t <= 0x8000,
        -0x8000 <= s <= 0x8000,
    ensures
        -0x1_0000_0000 <= AXIS_MAX * s <= 0x1_0000_0000,
        -0x1_0000_0000 <= AXIS_MAX * t <= 0x1_0000_0000,
        -0x1_0000_0000 <= abs(t) * s <= 0x1_0000_0000,
        -4 * 0x1_0000_0000 <= drive_mix(t, s).0 <= 4 * 0x1_0000_0000,
        -4 * 0x1_0000_0000 <= drive_mix(t, s).1 <= 4 * 0x1_0000_0000,
        drive_denominator() > 0,
        drive_denominator() <= 0x1_0000_0000,
{
    assert(-0x1_0000_0000 <= 32767 * s <= 0x1_0000_0000) by (nonlinear_arith)
        requires
            -0x8000 <= s <= 0x8000,
    ;
    assert(-0x1_0000_0000 <= 32767 * t <= 0x1_0000_0000) by (nonlinear_arith)
        requires
            -0x8000 <= t <= 0x8000,
    ;
    assert(-0x1_0000_0000 <= abs(t) * s <= 0x1_0000_0000) by (nonlinear_arith)
        requires
            0 <= abs(t) <= 0x8000,
            -0x8000 <= s <= 0x8000,
    ;
    assert(0 < 32767 * 32767 <= 0x1_0000_0000) by (nonlinear_arith);
}

/// For every throttle and steering, both track speeds lie within the speed
/// mode's factor.
pub proof fn lemma_tank_drive_bounds(s: ControlState)
    ensures
        -drive_factor(s.move_speed) <= tank_drive(s).0 <= drive_factor(s.move_speed),
        -drive_factor(s.move_speed) <= tank_drive(s).1 <= drive_factor(s.move_speed),
{
    let f = drive_factor(s.move_speed);
    let (l, r) = drive_mix(s.throttle as int, s.steering as int);
    let m = max(max(abs(l), abs(r)), drive_denominator());
    lemma_mix_bounds(s.throttle as int, s.steering as int);
    lemma_scaled_ratio_bound(f, l, m);
    lemma_scaled_ratio_bound(f, r, m);
}

/// Trimming twice is trimming once.
pub proof fn lemma_trim_idempotent(s: ControlState)
    ensures
        trimmed(trimmed(s)) == trimmed(s),
{
}

/// Without throttle, the two tracks turn at equal and opposite speeds: the
/// vehicle rotates in place.
pub proof fn lemma_turn_in_place(s: ControlState)
    requires
        s.throttle == 0,
        s.steering != 0,
    ensures
        tank_drive(s).0 == -tank_drive(s).1,
{
    let f = drive_factor(s.move_speed);
    let l = AXIS_MAX * s.steering;
    let m = max(max(abs(l), abs(-l)), drive_denominator());
    lemma_mix_bounds(0, s.steering as int);
    lemma_scaled_ratio_bound(f, l, m);
}

/// Full forward throttle without steering drives both tracks at the mode's
/// full factor.
pub proof fn lemma_full_throttle(s: ControlState)
    requires
        s.throttle == AXIS_MAX,
        s.steering == 0,
    ensures
        tank_drive(s) == (drive_factor(s.move_speed), drive_factor(s.move_speed)),
{
    let f = drive_factor(s.move_speed);
    let d = drive_denominator();
    assert(AXIS_MAX * AXIS_MAX + abs(AXIS_MAX as int) * 0 == d);
    lemma_mix_bounds(AXIS_MAX as int, 0);
    lemma_div_by_multiple(f, d);
    assert(f * d == d * f) by (nonlinear_arith);
}

/// Neither throttle nor steering: both tracks stand still.
pub proof fn lemma_neutral_stands_still(s: ControlState)
    requires
        s.throttle == 0,
        s.steering == 0,
    ensures
        tank_drive(s) == (0int, 0int),
{
    lemma_mix_bounds(0, 0);
}

} // verus!
