use toycar::current::mv_to_ma as datasheet_mv_to_ma;
use toycar::drive::{ramp_duty, x_to_steer, y_to_duty, RAMP_STEP};
use toycar::hbridge::CurrentReading;
use toycar::ibt2::{average_mv, current_reading, mv_to_ma};
use toycar::motor::{
    drive_duties, pwm_duties, pwm_writes, y_to_duty as motor_y_to_duty, DutyWrite, PwmDuties, PwmInput,
};

#[test]
fn conversion_matches_datasheet_ratio() {
    assert_eq!(datasheet_mv_to_ma(0), 0);
    // 1 kΩ, ratio 8.5: 1000 mV -> 8.5 A.
    assert_eq!(datasheet_mv_to_ma(1000), 8500);
    // Saturates rather than wrapping past the u16 ceiling.
    assert_eq!(datasheet_mv_to_ma(u16::MAX), u16::MAX);
}

#[test]
fn center_and_dead_zone_are_coast() {
    assert_eq!(y_to_duty(127), 0);
    assert_eq!(y_to_duty(127 + 10), 0);
    assert_eq!(y_to_duty(127 - 10), 0);
}

#[test]
fn full_scale_clamps_to_plus_minus_100() {
    assert_eq!(y_to_duty(255), 100);
    assert_eq!(y_to_duty(0), -100);
}

#[test]
fn steering_shares_the_axis_mapping() {
    assert_eq!(x_to_steer(127), 0);
    assert_eq!(x_to_steer(127 + 10), 0);
    assert_eq!(x_to_steer(255), 100);
    assert_eq!(x_to_steer(0), -100);
}

#[test]
fn conversion_matches_calibrated_scale() {
    // Empirical scale from the load sweep: 16 mA/mV → 1000 mV -> 16 A.
    assert_eq!(mv_to_ma(0, 0), 0);
    assert_eq!(mv_to_ma(1000, 0), 16000);
    // Saturates rather than wrapping past the u16 ceiling.
    assert_eq!(mv_to_ma(u16::MAX, 0), u16::MAX);
}

#[test]
fn offset_is_subtracted_and_saturates_at_zero() {
    // Baseline removed before scaling: (1200 - 200) * 16 = 16000.
    assert_eq!(mv_to_ma(1200, 200), 16000);
    // Readings below the baseline clamp to zero, never wrap.
    assert_eq!(mv_to_ma(100, 200), 0);
}

#[test]
fn duty_just_outside_dead_zone_and_partial_scale() {
    assert_eq!(y_to_duty(138), 8); // 11 * 100 / 128
    assert_eq!(y_to_duty(116), -8); // 11 * 100 / 127
    assert_eq!(y_to_duty(191), 50); // 64 * 100 / 128
    assert_eq!(y_to_duty(1), -99); // 126 * 100 / 127
    assert_eq!(motor_y_to_duty(191), 50);
}

#[test]
fn datasheet_conversion_rounds_down_and_saturates() {
    assert_eq!(datasheet_mv_to_ma(1), 8);
    assert_eq!(datasheet_mv_to_ma(7710), 65535);
    assert_eq!(datasheet_mv_to_ma(7709), 65526);
}

#[test]
fn calibrated_conversion_saturates() {
    assert_eq!(mv_to_ma(4096, 0), 65535);
    assert_eq!(mv_to_ma(4095, 0), 65520);
    assert_eq!(mv_to_ma(200, 200), 0);
}

#[test]
fn averaging_and_readings() {
    assert_eq!(average_mv(&[100, 200, 301]), 200);
    assert_eq!(average_mv(&[u16::MAX; 32]), u16::MAX);
    let c = current_reading(1200, 150, 200, 120);
    assert_eq!(
        c,
        CurrentReading { r_ma: 16000, l_ma: 480, r_mv: 1200, l_mv: 150 }
    );
    assert_eq!(CurrentReading::default().r_ma, 0);
}

#[test]
fn pwm_channels_follow_duty_sign() {
    assert_eq!(pwm_duties(40), PwmDuties { forward: 40, reverse: 0 });
    assert_eq!(pwm_duties(-40), PwmDuties { forward: 0, reverse: 40 });
    assert_eq!(pwm_duties(0), PwmDuties { forward: 0, reverse: 0 });
    assert_eq!(pwm_duties(127), PwmDuties { forward: 100, reverse: 0 });
    assert_eq!(pwm_duties(-128), PwmDuties { forward: 0, reverse: 100 });
    assert_eq!(drive_duties(255), PwmDuties { forward: 100, reverse: 0 });
    assert_eq!(drive_duties(0), PwmDuties { forward: 0, reverse: 100 });
    assert_eq!(drive_duties(130), PwmDuties { forward: 0, reverse: 0 });
}

#[test]
fn inactive_input_is_zeroed_first() {
    assert_eq!(
        pwm_writes(120),
        [DutyWrite { input: PwmInput::Reverse, pct: 0 }, DutyWrite { input: PwmInput::Forward, pct: 100 }]
    );
    assert_eq!(
        pwm_writes(-35),
        [DutyWrite { input: PwmInput::Forward, pct: 0 }, DutyWrite { input: PwmInput::Reverse, pct: 35 }]
    );
    assert_eq!(
        pwm_writes(0),
        [DutyWrite { input: PwmInput::Forward, pct: 0 }, DutyWrite { input: PwmInput::Reverse, pct: 0 }]
    );
}

#[test]
fn ramp_moves_at_most_one_step() {
    assert_eq!(RAMP_STEP, 10);
    assert_eq!(ramp_duty(0, 100), 10);
    assert_eq!(ramp_duty(95, 100), 100);
    assert_eq!(ramp_duty(40, -100), 30);
    assert_eq!(ramp_duty(-5, 3), 3);
    assert_eq!(ramp_duty(i16::MAX, i16::MIN), i16::MAX - 10);
    let mut d = -100;
    let mut steps = 0;
    while d != 100 {
        d = ramp_duty(d, 100);
        steps += 1;
    }
    assert_eq!(steps, 20);
}
