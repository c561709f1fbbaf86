use toycar::command::{
    is_whitespace, parse_bool, parse_command, parse_i8, parse_u8, split_whitespace, trim, Key,
    ParsedCommand, Prompt, PromptAction,
};
use toycar::host_proto::{BoardKind, BoardToHost, HostError, HostToBoard, LinkStateKind, RelayPayload};
use toycar::pitwall::{
    board_kind_str, connect_step, link_str, BoardTelemetry, ConnectStep, Telemetry, HIST_LEN,
};
use toycar::usb_frame::UsbFrameAssembler;
use toycar::event_log::{board_msg_line, EventLog, LogColor, LOG_LEN};

fn chars(s: &str) -> Vec<char> {
    s.chars().collect()
}

// ── telemetry model ───────────────────────────────────────────────────────────

#[test]
fn direct_telemetry_attributed_to_gateway() {
    let mut app = Telemetry::new();
    app.ingest(&BoardToHost::Pong { version: 1, board: BoardKind::Vehicle }, None, 0);
    app.ingest(&BoardToHost::MotorState { duty: 42 }, None, 10);

    assert_eq!(app.vehicle.motor_duty, Some(42));
    // duty 42 → shifted 142 in the sparkline history.
    assert_eq!(app.vehicle.hist_duty.back().copied(), Some(142));
    assert!(app.controller.motor_duty.is_none());
}

#[test]
fn from_peer_routes_to_source_board() {
    let mut app = Telemetry::new();
    app.ingest(&BoardToHost::Pong { version: 1, board: BoardKind::Vehicle }, None, 0);

    let inner = BoardToHost::JoystickState { x: 200, y: 60, buttons: 0b0000_0101 };
    let payload = RelayPayload::from_slice(&[0xAA]).unwrap();
    app.ingest(&BoardToHost::FromPeer { source: BoardKind::Controller, payload }, Some(&inner), 5);

    assert_eq!(app.controller.joy_x, Some(200));
    assert_eq!(app.controller.joy_y, Some(60));
    assert_eq!(app.controller.buttons, 0b0000_0101);
    assert_eq!(app.controller.hist_x.back().copied(), Some(200));
}

#[test]
fn errors_are_counted() {
    let mut app = Telemetry::new();
    app.ingest(&BoardToHost::Error(HostError::Busy), None, 0);
    assert_eq!(app.error_count, 1);
}

#[test]
fn telemetry_before_pong_is_unattributed() {
    let mut app = Telemetry::new();
    app.ingest(&BoardToHost::MotorState { duty: 5 }, None, 0);
    assert!(app.vehicle.motor_duty.is_none() && app.controller.motor_duty.is_none());
    let payload = RelayPayload::from_slice(&[1]).unwrap();
    app.ingest(&BoardToHost::FromPeer { source: BoardKind::Vehicle, payload }, None, 0);
    assert!(app.vehicle.last_seen_ms.is_none());
    app.ingest(&BoardToHost::Pong { version: 1, board: BoardKind::Controller }, None, 0);
    assert!(app.connected);
    app.ingest(&BoardToHost::EspNowLinkState(LinkStateKind::Alive), None, 3);
    assert_eq!(app.controller.link, Some(LinkStateKind::Alive));
    app.ingest(&BoardToHost::MotorState { duty: -150 }, None, 4);
    assert_eq!(app.controller.hist_duty.back().copied(), Some(0));
}

#[test]
fn history_is_bounded_and_staleness() {
    let mut b = BoardTelemetry::new();
    assert!(b.is_stale(0));
    for i in 0..(HIST_LEN as u64 + 5) {
        b.apply(&BoardToHost::ReceivedPacket { x: i as u8, y: 0, buttons: 0 }, 1000);
    }
    assert_eq!(b.hist_x.len(), HIST_LEN);
    assert_eq!(b.hist_x.front().copied(), Some(5));
    assert!(!b.is_stale(2500));
    assert!(b.is_stale(2501));
    assert!(!b.is_stale(10));
    let mut h = std::collections::VecDeque::new();
    BoardTelemetry::push_hist(&mut h, 3);
    assert_eq!(h.len(), 1);
}

#[test]
fn display_names() {
    assert_eq!(board_kind_str(&BoardKind::Controller), "Controller");
    assert_eq!(board_kind_str(&BoardKind::Vehicle), "Vehicle");
    assert_eq!(link_str(&LinkStateKind::AwaitingFirstPacket), "AwaitingFirstPacket");
    assert_eq!(link_str(&LinkStateKind::Alive), "Alive");
    assert_eq!(link_str(&LinkStateKind::TimedOut), "TimedOut");
}

// ── command grammar ───────────────────────────────────────────────────────────

#[test]
fn commands_parse() {
    assert!(matches!(parse_command("ping"), Some(ParsedCommand::Local(HostToBoard::Ping { version: 1 }))));
    assert!(matches!(parse_command("  led   off "), Some(ParsedCommand::Local(HostToBoard::SetLed(None)))));
    assert!(matches!(
        parse_command("led 0 255 +7"),
        Some(ParsedCommand::Local(HostToBoard::SetLed(Some([0, 255, 7]))))
    ));
    assert!(parse_command("led 0 256 7").is_none());
    assert!(matches!(
        parse_command("motor_en on 0"),
        Some(ParsedCommand::Local(HostToBoard::SetMotorEnable { r_en: true, l_en: false }))
    ));
    assert!(matches!(parse_command("motor_pwm 40"), Some(ParsedCommand::Local(HostToBoard::SetMotorPwm { duty: 40 }))));
    assert!(matches!(parse_command("motor_pwm -128"), Some(ParsedCommand::Local(HostToBoard::SetMotorPwm { duty: -100 }))));
    assert!(matches!(parse_command("motor_pwm 127"), Some(ParsedCommand::Local(HostToBoard::SetMotorPwm { duty: 100 }))));
    assert!(parse_command("motor_pwm 128").is_none());
    assert!(matches!(
        parse_command("remote_tele off"),
        Some(ParsedCommand::Local(HostToBoard::EnableRemoteTelemetry { on: false }))
    ));
    assert!(matches!(parse_command("repair"), Some(ParsedCommand::Local(HostToBoard::Repair))));
    match parse_command("peer peer led off") {
        Some(ParsedCommand::ForPeer(inner)) => match *inner {
            ParsedCommand::ForPeer(inner2) => {
                assert!(matches!(*inner2, ParsedCommand::Local(HostToBoard::SetLed(None))))
            }
            other => panic!("expected ForPeer, got {other:?}"),
        },
        other => panic!("expected ForPeer, got {other:?}"),
    }
    assert!(parse_command("peer").is_none());
    assert!(parse_command("peer bogus").is_none());
    assert!(parse_command("").is_none());
    assert!(parse_command("ping extra").is_none());
    // Unicode whitespace separates tokens too.
    assert!(matches!(parse_command("led\u{a0}off"), Some(ParsedCommand::Local(HostToBoard::SetLed(None)))));
}

#[test]
fn numbers_and_booleans_follow_str_parse() {
    for (s, v) in [("0", Some(0u8)), ("255", Some(255)), ("+1", Some(1)), ("256", None), ("-0", None), ("", None), ("+", None), ("1a", None), ("007", Some(7))] {
        assert_eq!(parse_u8(&chars(s)), v, "{s}");
        assert_eq!(parse_u8(&chars(s)), s.parse::<u8>().ok(), "{s}");
    }
    for s in ["0", "-0", "127", "-128", "128", "-129", "+5", "-", "+", "", "12x", "99999999999"] {
        assert_eq!(parse_i8(&chars(s)), s.parse::<i8>().ok(), "{s}");
    }
    assert_eq!(parse_bool("on"), Some(true));
    assert_eq!(parse_bool("1"), Some(true));
    assert_eq!(parse_bool("true"), Some(true));
    assert_eq!(parse_bool("off"), Some(false));
    assert_eq!(parse_bool("false"), Some(false));
    assert_eq!(parse_bool("0"), Some(false));
    assert_eq!(parse_bool("yes"), None);
}

#[test]
fn splitting_and_trimming_match_std() {
    for s in ["", "  a  b ", "a\tb\nc", "x\u{3000}y\u{2009}z", " \u{85}q "] {
        let ours: Vec<String> = split_whitespace(&chars(s)).into_iter().map(|t| t.into_iter().collect()).collect();
        let std: Vec<String> = s.split_whitespace().map(String::from).collect();
        assert_eq!(ours, std, "{s:?}");
        let t: String = trim(&chars(s)).into_iter().collect();
        assert_eq!(t, s.trim(), "{s:?}");
    }
    assert!(is_whitespace('\u{a0}') && !is_whitespace('a'));
}

#[test]
fn prompt_keys() {
    let mut p = Prompt::new();
    for c in " motor_pwm 40 ".chars() {
        assert!(matches!(p.handle_key(Key::Char { c, ctrl: false }), PromptAction::Nothing));
    }
    match p.handle_key(Key::Enter) {
        PromptAction::Send { line, command } => {
            assert_eq!(line.iter().collect::<String>(), "motor_pwm 40");
            assert!(matches!(command, ParsedCommand::Local(HostToBoard::SetMotorPwm { duty: 40 })));
        }
        other => panic!("expected Send, got {other:?}"),
    }
    assert!(p.input.is_empty());

    for c in "bogus".chars() {
        p.handle_key(Key::Char { c, ctrl: false });
    }
    p.handle_key(Key::Backspace);
    match p.handle_key(Key::Enter) {
        PromptAction::Unknown { line } => assert_eq!(line.iter().collect::<String>(), "bogu"),
        other => panic!("expected Unknown, got {other:?}"),
    }

    p.handle_key(Key::F1);
    assert!(p.show_help);
    p.handle_key(Key::Char { c: 'x', ctrl: false });
    assert!(!p.show_help && p.input.is_empty());

    for c in "help".chars() {
        p.handle_key(Key::Char { c, ctrl: false });
    }
    p.handle_key(Key::Enter);
    assert!(p.show_help && !p.should_quit);
    p.handle_key(Key::Char { c: 'c', ctrl: true });
    assert!(p.should_quit);

    let mut p = Prompt::new();
    p.handle_key(Key::Char { c: 'q', ctrl: false });
    p.handle_key(Key::Enter);
    assert!(p.should_quit);
    let mut p = Prompt::new();
    p.handle_key(Key::Esc);
    assert!(p.should_quit);
}

// ── USB framing ───────────────────────────────────────────────────────────────

#[test]
fn usb_frames_end_at_zero_and_overflow_is_dropped() {
    let mut a = UsbFrameAssembler::new();
    assert_eq!(a.push_byte(1), None);
    assert_eq!(a.push_byte(2), None);
    assert_eq!(a.push_byte(0), Some(vec![1, 2, 0]));
    assert_eq!(a.push_byte(0), Some(vec![0]));
    for _ in 0..64 {
        assert_eq!(a.push_byte(7), None);
    }
    // The 65th byte overflows: dropped along with the partial frame.
    assert_eq!(a.push_byte(0), None);
    assert_eq!(a.push_byte(5), None);
    a.reset();
    assert_eq!(a.push_byte(0), Some(vec![0]));
}

#[test]
fn full_size_frame_is_reassembled_whole() {
    let mut frame: Vec<u8> = (1..64u8).collect();
    frame.push(0);
    assert_eq!(frame.len(), 64);
    let mut a = UsbFrameAssembler::new();
    let mut out = Vec::new();
    for &b in &frame {
        if let Some(f) = a.push_byte(b) {
            out.push(f);
        }
    }
    assert_eq!(out, vec![frame]);
    // Nothing is left pending: the next frame starts afresh.
    assert_eq!(a.push_byte(0), Some(vec![0]));
}

#[test]
fn log_lines_match_the_dashboard() {
    let line = |m: &BoardToHost| board_msg_line(m, &[]);
    assert_eq!(
        line(&BoardToHost::Pong { version: 1, board: BoardKind::Vehicle }),
        ("[PONG] version=1 board=Vehicle".to_string(), LogColor::Green)
    );
    assert_eq!(line(&BoardToHost::MotorState { duty: 42 }), ("[MOTOR] duty=42".to_string(), LogColor::Blue));
    assert_eq!(line(&BoardToHost::MotorState { duty: -123 }).0, "[MOTOR] duty=-123");
    assert_eq!(
        line(&BoardToHost::JoystickState { x: 200, y: 180, buttons: 5 }),
        ("[JOYSTICK] x=200 y=180 buttons=0x05".to_string(), LogColor::Cyan)
    );
    assert_eq!(
        line(&BoardToHost::ReceivedPacket { x: 0, y: 9, buttons: 0xab }).0,
        "[PACKET] x=0 y=9 buttons=0xab"
    );
    assert_eq!(
        line(&BoardToHost::EspNowLinkState(LinkStateKind::TimedOut)),
        ("[LINK] TimedOut".to_string(), LogColor::Yellow)
    );
    assert_eq!(line(&BoardToHost::LedAck), ("[LED_ACK]".to_string(), LogColor::Green));
    assert_eq!(
        line(&BoardToHost::Error(HostError::Busy)),
        ("[ERROR] Busy".to_string(), LogColor::Red)
    );
    let cs = BoardToHost::CurrentSense { r_ma: 12345, l_ma: 0 };
    assert_eq!(line(&cs), (format!("[UNKNOWN] {cs:?}"), LogColor::DarkGray));
    let raw = BoardToHost::CurrentSenseRaw { r_mv: 1500, l_mv: 7, duty: -40 };
    assert_eq!(line(&raw), (format!("[UNKNOWN] {raw:?}"), LogColor::DarkGray));

    // A relayed message is its inner line behind the source board.
    let payload = RelayPayload::from_slice(&[1, 2]).unwrap();
    let relayed = BoardToHost::FromPeer { source: BoardKind::Controller, payload };
    let inner = [BoardToHost::JoystickState { x: 200, y: 180, buttons: 0 }];
    assert_eq!(
        board_msg_line(&relayed, &inner),
        ("[Controller] [JOYSTICK] x=200 y=180 buttons=0x00".to_string(), LogColor::Cyan)
    );
    assert_eq!(
        board_msg_line(&relayed, &[]),
        ("[Controller] <undecodable telemetry>".to_string(), LogColor::DarkGray)
    );
}

#[test]
fn event_log_keeps_the_newest_lines() {
    let mut log = EventLog::new();
    assert_eq!(log.len(), 0);
    for i in 0..(LOG_LEN + 3) {
        log.push(format!("line {i}"), LogColor::Gray);
    }
    assert_eq!(log.len(), LOG_LEN);
    assert_eq!(log.line(0).0, "line 3");
    assert_eq!(log.line(LOG_LEN - 1).0, &format!("line {}", LOG_LEN + 2));
    assert_eq!(log.line(0).1, LogColor::Gray);
}

#[test]
fn current_sense_fills_the_vehicle_panel() {
    let mut app = Telemetry::new();
    app.ingest(&BoardToHost::Pong { version: 1, board: BoardKind::Vehicle }, None, 0);
    app.ingest(&BoardToHost::CurrentSense { r_ma: 120, l_ma: 12_345 }, None, 5);
    assert_eq!(app.vehicle.cur_r_ma, Some(120));
    assert_eq!(app.vehicle.cur_l_ma, Some(12_345));
    assert_eq!(app.vehicle.hist_current.back().copied(), Some(12_345));
    assert!(app.vehicle.motor_duty.is_none());
    assert!(app.controller.cur_r_ma.is_none());
}

#[test]
fn connect_pings_every_half_second_for_ten_seconds() {
    let mut next = 0u64;
    assert_eq!(connect_step(0, &mut next), ConnectStep::Ping);
    assert_eq!(next, 500);
    assert_eq!(connect_step(20, &mut next), ConnectStep::Wait);
    assert_eq!(connect_step(499, &mut next), ConnectStep::Wait);
    assert_eq!(connect_step(510, &mut next), ConnectStep::Ping);
    assert_eq!(next, 1010);
    assert_eq!(connect_step(9_999, &mut next), ConnectStep::Ping);
    assert_eq!(connect_step(10_000, &mut next), ConnectStep::GiveUp);
    assert_eq!(next, 10_499);
}
