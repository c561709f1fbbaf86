//! Signed-duty to PWM-channel mapping of the two-input H-bridges (IBT-2 `RPWM`
//! / `LPWM`, L298N `IN1` / `IN2`).
use vstd::prelude::*;
use crate::drive::{axis_duty, y_to_duty as axis_y_to_duty};

verus! {

/// Duty percentages for the two PWM inputs of a bridge.
#[derive(Copy, Clone, Debug, PartialEq, Eq)]
pub struct PwmDuties {
    /// Forward input (`RPWM` / `IN1`), 0–100 %.
    pub forward: u8,
    /// Reverse input (`LPWM` / `IN2`), 0–100 %.
    pub reverse: u8,
}

/// The channel duties for a signed duty: positive drives the forward input,
/// negative the reverse input, each at `min(|duty|, 100)` %; zero leaves both
/// inputs at 0 (coast, or brake with the bridge enabled).
pub open spec fn duties_for(duty: int) -> PwmDuties {
    let pct: int = if duty < 0 { -duty } else { duty };
    let pct: int = if pct > 100 { 100 } else { pct };
    if duty > 0 {
        PwmDuties { forward: pct as u8, reverse: 0 }
    } else if duty < 0 {
        PwmDuties { forward: 0, reverse: pct as u8 }
    } else {
        PwmDuties { forward: 0, reverse: 0 }
    }
}

/// Channel duties for a signed duty (-100–100).
pub fn pwm_duties(duty: i8) -> (d: PwmDuties)
    ensures
        d == duties_for(duty as int),
{
    let magnitude: u8 = if duty < 0 {
        if duty == -128 { 128 } else { (-duty) as u8 }
    } else {
        duty as u8
    };
    let pct: u8 = if magnitude < 100 { magnitude } else { 100 };
    if duty > 0 {
        PwmDuties { forward: pct, reverse: 0 }
    } else if duty < 0 {
        PwmDuties { forward: 0, reverse: pct }
    } else {
        PwmDuties { forward: 0, reverse: 0 }
    }
}

/// Convert joystick Y to a signed duty level (positive = forward, negative =
/// reverse, 0 = coast).
pub fn y_to_duty(y: u8) -> (d: i16)
    ensures
        d == axis_duty(y),
{
    axis_y_to_duty(y)
}

/// Channel duties that drive the traction motor from joystick Y: forward input
/// active above the dead zone, reverse input below it, both off inside it.
pub fn drive_duties(y: u8) -> (d: PwmDuties)
    ensures
        d == duties_for(axis_duty(y)),
{
    let duty = axis_y_to_duty(y);
    proof {
        crate::drive::lemma_axis_duty_shape(y);
    }
    pwm_duties(duty as i8)
}

/// One of the two PWM inputs of a bridge.
#[derive(Copy, Clone, Debug, PartialEq, Eq)]
pub enum PwmInput {
    /// `RPWM` / `IN1`.
    Forward,
    /// `LPWM` / `IN2`.
    Reverse,
}

/// Setting one PWM input to a duty percentage.
#[derive(Copy, Clone, Debug, PartialEq, Eq)]
pub struct DutyWrite {
    pub input: PwmInput,
    pub pct: u8,
}

/// The duties after one write.
pub open spec fn after_write(d: PwmDuties, w: DutyWrite) -> PwmDuties {
    match w.input {
        PwmInput::Forward => PwmDuties { forward: w.pct, reverse: d.reverse },
        PwmInput::Reverse => PwmDuties { forward: d.forward, reverse: w.pct },
    }
}

/// The two writes that set a signed duty, in the order a driver issues them:
/// the inactive input is zeroed before the active one is raised (both are
/// zeroed, forward first, for a zero duty). Only PWM inputs are written; the
/// enable lines are not touched.
pub open spec fn duty_writes(duty: int) -> Seq<DutyWrite> {
    if duty > 0 {
        seq![
            DutyWrite { input: PwmInput::Reverse, pct: 0 },
            DutyWrite { input: PwmInput::Forward, pct: duties_for(duty).forward },
        ]
    } else if duty < 0 {
        seq![
            DutyWrite { input: PwmInput::Forward, pct: 0 },
            DutyWrite { input: PwmInput::Reverse, pct: duties_for(duty).reverse },
        ]
    } else {
        seq![
            DutyWrite { input: PwmInput::Forward, pct: 0 },
            DutyWrite { input: PwmInput::Reverse, pct: 0 },
        ]
    }
}

/// The writes a brake or a stop issues: both inputs zeroed, forward first.
pub open spec fn zero_writes() -> Seq<DutyWrite> {
    seq![DutyWrite { input: PwmInput::Forward, pct: 0 }, DutyWrite { input: PwmInput::Reverse, pct: 0 }]
}

/// The writes that set a signed duty, in order (see [`duty_writes`]).
pub fn pwm_writes(duty: i8) -> (w: [DutyWrite; 2])
    ensures
        w@ == duty_writes(duty as int),
{
    let d = pwm_duties(duty);
    let w = if duty > 0 {
        [DutyWrite { input: PwmInput::Reverse, pct: 0 }, DutyWrite { input: PwmInput::Forward, pct: d.forward }]
    } else if duty < 0 {
        [DutyWrite { input: PwmInput::Forward, pct: 0 }, DutyWrite { input: PwmInput::Reverse, pct: d.reverse }]
    } else {
        [DutyWrite { input: PwmInput::Forward, pct: 0 }, DutyWrite { input: PwmInput::Reverse, pct: 0 }]
    };
    assert(w@ =~= duty_writes(duty as int));
    w
}

/// Whatever the bridge held before, issuing the writes of a duty in order
/// never has both inputs driven at once, even between the two writes, and
/// ends at the duty's [`duties_for`] duties.
pub proof fn lemma_writes_never_drive_both(before: PwmDuties, duty: int)
    ensures
        duty_writes(duty).len() == 2,
        after_write(before, duty_writes(duty)[0]).forward == 0 || after_write(before, duty_writes(duty)[0]).reverse == 0,
        after_write(after_write(before, duty_writes(duty)[0]), duty_writes(duty)[1]) == duties_for(duty),
{
}

/// At most one input is ever driven, and never above 100 %.
pub proof fn lemma_one_input_active(duty: int)
    ensures
        duties_for(duty).forward == 0 || duties_for(duty).reverse == 0,
        duties_for(duty).forward <= 100,
        duties_for(duty).reverse <= 100,
{
}

} // verus!
