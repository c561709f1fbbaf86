//! Motor power-stage abstraction shared by every driver: the control layer
//! depends on [`HBridge`], not on a concrete driver, so different power stages
//! (IBT-2, L298N, ...) can be dropped in without touching the control loop.
//!
//! Current sensing is part of the same trait but optional:
//! [`HBridge::read_current`] returns `None` for a driver without a usable
//! current-sense output.
use vstd::prelude::*;
use crate::motor::{duties_for, duty_writes, zero_writes, DutyWrite, PwmDuties};

verus! {

/// One current-sense reading: converted load current (mA) plus the raw
/// averaged sense voltage (mV) for calibration and telemetry.
#[derive(Copy, Clone, Debug, Default, PartialEq, Eq)]
pub struct CurrentReading {
    /// Forward/right high-side (`R_IS`) load current, offset-subtracted and scaled.
    pub r_ma: u16,
    /// Reverse/left (`L_IS`) load current, offset-subtracted and scaled.
    pub l_ma: u16,
    /// Raw averaged `R_IS` sense voltage in mV (before offset subtraction).
    pub r_mv: u16,
    /// Raw averaged `L_IS` sense voltage in mV (before offset subtraction).
    pub l_mv: u16,
}

/// Abstraction over the motor power stage. `set_pwm` takes a signed duty
/// (`+` forward input active, `-` reverse input active, `0` coast); the
/// joystick-to-duty mapping is a control-layer concern.
///
/// The contracts speak of the duties currently applied to the two PWM inputs,
/// of every write to those inputs in order (so that a duty change zeroes the
/// inactive input before raising the active one), and of whether the bridge
/// is enabled. `brake` and `enable` leave it
/// enabled. What `stop` and the single enable-line calls do to it is left to
/// each driver: on some modules both lines are one shared pin, and on others
/// that pin is tied high and cannot be driven low.
pub trait HBridge {
    /// The duties currently applied to the forward and reverse PWM inputs.
    closed spec fn duties(&self) -> PwmDuties {
        PwmDuties { forward: 0, reverse: 0 }
    }

    /// Every write to a PWM input so far, oldest first.
    closed spec fn writes(&self) -> Seq<DutyWrite> {
        Seq::empty()
    }

    /// Whether the bridge's half-bridges are enabled.
    closed spec fn enabled(&self) -> bool {
        false
    }

    /// Set the PWM duty (-100–100): `+` drives the forward input, `-` the
    /// reverse input, each at `min(|duty|, 100)` %; `0` coasts.
    fn set_pwm(&mut self, duty: i8)
        ensures
            final(self).duties() == duties_for(duty as int),
            final(self).enabled() == old(self).enabled(),
            final(self).writes() == old(self).writes() + duty_writes(duty as int),
    ;

    /// Electrodynamic brake: bridge enabled, both PWM inputs at 0.
    fn brake(&mut self)
        ensures
            final(self).duties() == (PwmDuties { forward: 0, reverse: 0 }),
            final(self).enabled(),
            final(self).writes() == old(self).writes() + zero_writes(),
    ;

    /// Fail-safe: disable the bridge and zero both PWM inputs.
    fn stop(&mut self)
        ensures
            final(self).duties() == (PwmDuties { forward: 0, reverse: 0 }),
            final(self).writes() == old(self).writes() + zero_writes(),
    ;

    /// Re-enable the bridge after `stop`, before resuming drive.
    fn enable(&mut self)
        ensures
            final(self).duties() == old(self).duties(),
            final(self).enabled(),
            final(self).writes() == old(self).writes(),
    ;

    /// Drive the forward-side enable line.
    fn set_r_en(&mut self, high: bool)
        ensures
            final(self).duties() == old(self).duties(),
            final(self).writes() == old(self).writes(),
    ;

    /// Drive the reverse-side enable line.
    fn set_l_en(&mut self, high: bool)
        ensures
            final(self).duties() == old(self).duties(),
            final(self).writes() == old(self).writes(),
    ;

    /// Read the current-sense channels, or `None` if this driver has no
    /// current sense.
    fn read_current(&mut self) -> (r: Option<CurrentReading>)
        ensures
            final(self).duties() == old(self).duties(),
            final(self).enabled() == old(self).enabled(),
            final(self).writes() == old(self).writes(),
    ;
}

} // verus!
