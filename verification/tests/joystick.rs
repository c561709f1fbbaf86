use toycar::joystick::{
    decode_joystick_state, encode_buttons, neutral_joystick_state, probe_order, record_scan_hit,
    runtime_read_order, same_state, ChangeTracker, I2cScanSummary, JoystickButtons, ProbeWindows,
    RegisterChange, ScanProbe, ScanTally, JOYSTICK_RUNTIME_FRAME_LEN, settle_frame_read,
};
use toycar::protocol::ControlPacket;

fn buttons(joy: bool, c: bool, a: bool, b: bool, d: bool) -> JoystickButtons {
    JoystickButtons { joy, c, a, b, d }
}

#[test]
fn buttons_pack_into_packet_bits() {
    assert_eq!(encode_buttons(&buttons(false, false, false, false, false)), 0);
    assert_eq!(encode_buttons(&buttons(true, false, false, false, false)), ControlPacket::BUTTON_JOY);
    assert_eq!(
        encode_buttons(&buttons(false, false, true, true, false)),
        ControlPacket::BUTTON_A | ControlPacket::BUTTON_B
    );
    assert_eq!(encode_buttons(&buttons(true, true, true, true, true)), 0x1f);
    assert_eq!(encode_buttons(&buttons(false, true, false, false, true)), 0x12);
}

#[test]
fn neutral_state_is_centred_and_released() {
    let s = neutral_joystick_state();
    assert_eq!((s.x, s.y), (128, 128));
    assert_eq!(encode_buttons(&s.buttons), 0);
    assert_eq!(s.raw_buttons, [8; 5]);
}

#[test]
fn frame_decodes_axes_and_pressed_buttons() {
    let mut frame = [0xAAu8; JOYSTICK_RUNTIME_FRAME_LEN];
    frame[0] = 200; // register 0x10: X
    frame[1] = 60; // register 0x11: Y
    frame[0x10..0x15].copy_from_slice(&[0, 8, 0, 8, 7]); // registers 0x20..=0x24
    let s = decode_joystick_state(&frame);
    assert_eq!(s.x, 200);
    assert_eq!(s.y, 60);
    assert_eq!(s.raw_buttons, [0, 8, 0, 8, 7]);
    assert_eq!(s.buttons, buttons(true, false, true, false, false));
    assert!(same_state(&s, &s));
    assert!(!same_state(&s, &neutral_joystick_state()));
}

#[test]
fn probe_and_read_orders() {
    assert_eq!(probe_order(I2cScanSummary { found_count: 0, first_found: None }), vec![0x5A, 0x24, 0x12, 0x48]);
    assert_eq!(
        probe_order(I2cScanSummary { found_count: 1, first_found: Some(0x30) }),
        vec![0x5A, 0x24, 0x12, 0x48, 0x30]
    );
    assert_eq!(
        probe_order(I2cScanSummary { found_count: 1, first_found: Some(0x12) }),
        vec![0x5A, 0x24, 0x12, 0x48]
    );
    assert_eq!(runtime_read_order(Some(0x30)), vec![0x30, 0x5A, 0x24, 0x12, 0x48]);
    assert_eq!(runtime_read_order(Some(0x24)), vec![0x5A, 0x24, 0x12, 0x48]);
    assert_eq!(runtime_read_order(None), vec![0x5A, 0x24, 0x12, 0x48]);
}

#[test]
fn scan_hits_are_counted_and_first_kept() {
    let s = record_scan_hit(I2cScanSummary { found_count: 0, first_found: None }, 0x40);
    assert_eq!(s, I2cScanSummary { found_count: 1, first_found: Some(0x40) });
    let s = record_scan_hit(s, 0x50);
    assert_eq!(s, I2cScanSummary { found_count: 2, first_found: Some(0x40) });
    let s = record_scan_hit(I2cScanSummary { found_count: 255, first_found: Some(1) }, 2);
    assert_eq!(s.found_count, 255);
}

#[test]
fn scan_tally_counts_hits_and_data_nacks() {
    let mut tally = ScanTally::new();
    tally.record(0x10, ScanProbe::Absent);
    tally.record(0x11, ScanProbe::DataNack);
    tally.record(0x12, ScanProbe::Failed);
    let v = tally.verdict();
    assert!(v.no_devices);
    assert!(v.data_nack_warning);
    assert!(v.wiring_hint);

    tally.record(0x5a, ScanProbe::Found);
    tally.record(0x60, ScanProbe::Found);
    assert_eq!(tally.summary, I2cScanSummary { found_count: 2, first_found: Some(0x5a) });
    assert_eq!(tally.data_nacks, 1);
    let v = tally.verdict();
    assert!(!v.no_devices);
    assert!(v.data_nack_warning);
    assert!(!v.wiring_hint);
}

#[test]
fn probe_reports_each_register_change_once() {
    let baseline: ProbeWindows = [[8u8; 8]; 8];
    let mut current = baseline;
    current[2][0] = 200; // register 0x10 (X axis)
    current[2][1] = 60; // register 0x11 (Y axis)
    current[5][3] = 1; // register 0x2B, but window 5 failed to read
    let mut valid = [true; 8];
    let mut cur_valid = [true; 8];
    cur_valid[5] = false;

    let mut tracker = ChangeTracker::new();
    assert_eq!(tracker.printed(), 0);
    let changes = tracker.record(&baseline, &valid, &current, &cur_valid);
    assert_eq!(
        changes,
        vec![
            RegisterChange { reg: 0x10, old: 8, new: 200 },
            RegisterChange { reg: 0x11, old: 8, new: 60 },
        ]
    );
    assert_eq!(tracker.printed(), 2);

    // The same changes again are not reported twice; a new one is.
    current[4][4] = 0; // register 0x24 (button D pressed)
    let changes = tracker.record(&baseline, &valid, &current, &cur_valid);
    assert_eq!(changes, vec![RegisterChange { reg: 0x24, old: 8, new: 0 }]);
    assert_eq!(tracker.printed(), 3);

    // A baseline window that failed to read is skipped too.
    valid[7] = false;
    current[7][7] = 9;
    assert!(tracker.record(&baseline, &valid, &current, &cur_valid).is_empty());
}

#[test]
fn frame_read_stops_at_first_answer() {
    let order = runtime_read_order(Some(0x30));
    assert_eq!(order, vec![0x30, 0x5A, 0x24, 0x12, 0x48]);
    let frame = [7u8; JOYSTICK_RUNTIME_FRAME_LEN];
    let outcomes: Vec<Result<[u8; JOYSTICK_RUNTIME_FRAME_LEN], &str>> =
        vec![Err("nack"), Err("timeout"), Ok(frame), Ok([1u8; JOYSTICK_RUNTIME_FRAME_LEN]), Err("x")];
    assert_eq!(settle_frame_read(&order, &outcomes), (3, Ok((0x24, frame))));

    let failures: Vec<Result<[u8; JOYSTICK_RUNTIME_FRAME_LEN], &str>> =
        vec![Err("first"), Err("second"), Err("third"), Err("fourth"), Err("fifth")];
    assert_eq!(settle_frame_read(&order, &failures), (5, Err(Some("first"))));
    assert_eq!(settle_frame_read::<&str>(&Vec::new(), &Vec::new()), (0, Err(None)));
}
