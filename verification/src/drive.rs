//! Control-layer policy that maps joystick axes to signed motor duties.
//!
//! Deliberately separate from the power-stage drivers: a driver only knows about
//! a signed PWM duty, while dead-zone and range shaping are a control decision.
//! The Y axis drives traction; the X axis steers. Traction duty changes go
//! through a slew-rate limiter ([`ramp_duty`]) so the motor accelerates and
//! slows over several control ticks instead of jumping.
use vstd::prelude::*;

verus! {

/// Half-width of the centred dead zone, in raw joystick counts.
pub const DEAD_ZONE: u8 = 10;

/// Joystick axis centre value (0–255 range).
pub const CENTER: u8 = 127;

/// The signed duty of an axis reading: 0 inside the dead zone `127 ± 10`;
/// above it the offset scaled by `100 / (255 - 127)`, below it the negated
/// offset scaled by `100 / 127`, each rounded toward zero and clamped to 100.
pub open spec fn axis_duty(v: u8) -> int {
    let offset = v - CENTER;
    if -(DEAD_ZONE as int) <= offset <= DEAD_ZONE {
        0
    } else if offset > 0 {
        let d = offset * 100 / 128;
        if d > 100 { 100 } else { d }
    } else {
        let d = (-offset) * 100 / 127;
        -(if d > 100 { 100 } else { d })
    }
}

/// Map a joystick axis (0–255, center = 127, dead-zone ±10) to a signed duty
/// level (positive = high end, negative = low end, 0 = centred), clamped to ±100.
fn axis_to_duty(v: u8) -> (d: i16)
    ensures
        d == axis_duty(v),
{
    let offset: i16 = (v as i16) - (CENTER as i16);
    let magnitude: u16 = if offset < 0 { (-offset) as u16 } else { offset as u16 };
    if magnitude <= DEAD_ZONE as u16 {
        0
    } else if offset > 0 {
        let d: u16 = (offset as u16 * 100) / (255 - CENTER as u16);
        (if d < 100 { d } else { 100 }) as i16
    } else {
        let d: u16 = ((-offset) as u16 * 100) / CENTER as u16;
        -((if d < 100 { d } else { 100 }) as i16)
    }
}

/// Largest change of the applied traction duty in one control tick (percent).
/// The protocol documentation asks for a slew-rate limiter but gives no step
/// size; this value is this library's own choice. From rest, full duty is
/// reached after ten 50 ms ticks.
pub const RAMP_STEP: i16 = 10;

/// One slew-rate-limited step from the applied duty `current` toward
/// `target`: `target` itself when it is within [`RAMP_STEP`], otherwise
/// `current` moved by exactly `RAMP_STEP` toward it.
pub open spec fn ramp_toward(current: int, target: int) -> int {
    if target > current + RAMP_STEP {
        current + RAMP_STEP
    } else if target < current - RAMP_STEP {
        current - RAMP_STEP
    } else {
        target
    }
}

/// The duty after `n` ticks of ramping from `current` toward a fixed `target`.
pub open spec fn ramp_ticks(current: int, target: int, n: nat) -> int
    decreases n,
{
    if n == 0 {
        current
    } else {
        ramp_toward(ramp_ticks(current, target, (n - 1) as nat), target)
    }
}

/// The duty to apply this tick: one [`ramp_toward`] step from the duty
/// applied last tick.
pub fn ramp_duty(current: i16, target: i16) -> (d: i16)
    ensures
        d == ramp_toward(current as int, target as int),
{
    let c: i32 = current as i32;
    let t: i32 = target as i32;
    let step: i32 = RAMP_STEP as i32;
    if t > c + step {
        (c + step) as i16
    } else if t < c - step {
        (c - step) as i16
    } else {
        target
    }
}

/// A ramp step never changes the duty by more than [`RAMP_STEP`] and never
/// overshoots the target: it lands between the applied duty and the target.
pub proof fn lemma_ramp_step_bounded(current: int, target: int)
    ensures
        -RAMP_STEP <= ramp_toward(current, target) - current <= RAMP_STEP,
        current <= target ==> current <= ramp_toward(current, target) <= target,
        target <= current ==> target <= ramp_toward(current, target) <= current,
        ramp_toward(current, target) == target <==> -RAMP_STEP <= target - current <= RAMP_STEP,
{
}

/// Ramping toward a fixed target reaches it after `n` ticks exactly when
/// `n * RAMP_STEP` covers the distance, and until then has moved
/// `n * RAMP_STEP` toward it; so from rest, full duty takes ten ticks.
pub proof fn lemma_ramp_reaches_target(current: int, target: int, n: nat)
    ensures
        current <= target ==> ramp_ticks(current, target, n)
            == (if current + n * RAMP_STEP >= target { target } else { current + n * RAMP_STEP }),
        target <= current ==> ramp_ticks(current, target, n)
            == (if current - n * RAMP_STEP <= target { target } else { current - n * RAMP_STEP }),
    decreases n,
{
    if n > 0 {
        lemma_ramp_reaches_target(current, target, (n - 1) as nat);
        assert((n - 1) * RAMP_STEP + RAMP_STEP == n * RAMP_STEP) by (nonlinear_arith);
    }
}

/// Convert joystick Y to a traction duty (positive = forward, negative =
/// reverse, 0 = coast), clamped to ±100.
pub fn y_to_duty(y: u8) -> (d: i16)
    ensures
        d == axis_duty(y),
{
    axis_to_duty(y)
}

/// Convert joystick X to a steering duty (positive = one side, negative = the
/// other, 0 = centred), clamped to ±100.
pub fn x_to_steer(x: u8) -> (d: i16)
    ensures
        d == axis_duty(x),
{
    axis_to_duty(x)
}

/// The duty always lies in `-100..=100`, is 0 exactly inside the dead zone,
/// reaches ±100 at the ends of the axis, and has the sign of the deflection.
pub proof fn lemma_axis_duty_shape(v: u8)
    ensures
        -100 <= axis_duty(v) <= 100,
        axis_duty(v) == 0 <==> 117 <= v <= 137,
        v > 137 ==> axis_duty(v) > 0,
        v < 117 ==> axis_duty(v) < 0,
        axis_duty(255) == 100,
        axis_duty(0) == -100,
{
}

/// Pushing the stick further never lowers the duty.
pub proof fn lemma_axis_duty_monotonic(a: u8, b: u8)
    requires
        a <= b,
    ensures
        axis_duty(a) <= axis_duty(b),
{
    let oa: int = a - 127;
    let ob: int = b - 127;
    if oa > 10 && ob > 10 {
        assert(oa * 100 / 128 <= ob * 100 / 128) by (nonlinear_arith)
            requires oa <= ob;
    } else if oa < -10 && ob < -10 {
        assert((-ob) * 100 / 127 <= (-oa) * 100 / 127) by (nonlinear_arith)
            requires -ob <= -oa;
    }
}

} // verus!
