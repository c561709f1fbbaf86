use toycar::controller::{
    self, advance_clock, controller_tick, forward_reply, route_host_command, should_log_read_failure,
    ControllerRunState, HostCommandRoute, TxReason,
};
use toycar::espnow::{
    EspNowLink, EspNowTransport, Inbound, ReceivedControl, ReceivedMeta, BROADCAST_ADDRESS,
};
use toycar::frame::{decode_frame, Frame};
use toycar::gateway::{accept_tunnel_cmd, on_pair_ack, relay_peer_telemetry, same_mac};
use toycar::host_proto::{BoardKind, BoardToHost, HostError, HostToBoard, LinkStateKind, RelayPayload};
use toycar::joystick::{neutral_joystick_state, JoystickButtons, JoystickState};
use toycar::keepalive::{LinkState, LinkWatchdog};
use toycar::protocol::{ControlPacket, LINK_TIMEOUT_MS};
use toycar::hbridge::{CurrentReading, HBridge};
use toycar::vehicle::{
    self, apply_motor_command, begin_tick, end_tick, handle_control, hold_manual_pwm,
    link_state_tick, mirror_to_peer, on_inbound, InboundAction, MotorCommand, VehicleRunState,
};

const CTRL: [u8; 6] = [0x10, 0, 0, 0, 0, 0x01];
const OTHER: [u8; 6] = [0x30, 0, 0, 0, 0, 0x03];
const VEH_MAC: [u8; 6] = [0x20, 0, 0, 0, 0, 0x02];

#[derive(Default)]
struct MockTransport {
    sent: Vec<(Vec<u8>, [u8; 6])>,
    peers: Vec<[u8; 6]>,
    fail_add_peer: bool,
}

impl EspNowTransport for MockTransport {
    type Error = ();
    fn send(&mut self, peer_mac: [u8; 6], payload: &[u8]) -> Result<(), ()> {
        self.sent.push((payload.to_vec(), peer_mac));
        Ok(())
    }
    fn receive(&mut self, _rx_buffer: &mut [u8]) -> Result<Option<ReceivedMeta>, ()> {
        Ok(None)
    }
    fn add_peer(&mut self, mac: [u8; 6]) -> Result<(), ()> {
        if self.peers.contains(&mac) {
            return Ok(());
        }
        if self.fail_add_peer {
            return Err(());
        }
        self.peers.push(mac);
        Ok(())
    }
    fn peer_exists(&self, mac: [u8; 6]) -> bool {
        self.peers.contains(&mac)
    }
}

fn control(src: [u8; 6], dst: [u8; 6], y: u8, buttons: u8) -> ReceivedControl {
    ReceivedControl {
        packet: ControlPacket::new(7, 100, y, buttons),
        meta: ReceivedMeta { peer_mac: src, dst_mac: dst, len: 9, rssi_dbm: Some(-40) },
    }
}

fn payload(bytes: &[u8]) -> RelayPayload {
    RelayPayload::from_slice(bytes).unwrap()
}

// ── vehicle ───────────────────────────────────────────────────────────────────

#[test]
fn broadcast_control_pairs_and_acknowledges() {
    let mut link = EspNowLink::new(MockTransport::default());
    let mut wd = LinkWatchdog::new(LINK_TIMEOUT_MS);
    let mut s = VehicleRunState::new();
    s.elapsed_ms = 1234;

    let o = handle_control(&mut link, &mut wd, &mut s, control(CTRL, BROADCAST_ADDRESS, 255, 0));
    assert!(o.accepted);
    assert_eq!(o.persist_peer, Some(CTRL));
    assert_eq!(link.paired_peer(), Some(CTRL));
    // Drive is ramped: one step of 10 from rest.
    assert_eq!(o.motor, Some(MotorCommand::SetPwm(10)));
    assert_eq!(s.last_duty, 10);
    assert_eq!(wd.state(1234 + 500), LinkState::Alive);
    let (frame, dst) = link.transport().sent.last().cloned().unwrap();
    assert_eq!(dst, CTRL);
    assert_eq!(decode_frame(&frame), Ok(Frame::PairAck));
    assert!(matches!(o.telemetry[0], BoardToHost::ReceivedPacket { x: 100, y: 255, buttons: 0 }));
    assert!(matches!(o.telemetry[1], BoardToHost::MotorState { duty: 10 }));
}

#[test]
fn foreign_control_is_ignored_once_paired() {
    let mut link = EspNowLink::new(MockTransport::default());
    link.learn_peer(CTRL).unwrap();
    let mut wd = LinkWatchdog::new(LINK_TIMEOUT_MS);
    let mut s = VehicleRunState::new();
    let o = handle_control(&mut link, &mut wd, &mut s, control(OTHER, VEH_MAC, 0, 0));
    assert!(!o.accepted);
    assert!(o.motor.is_none() && o.telemetry.is_empty() && o.persist_peer.is_none());
    assert_eq!(wd.state(10), LinkState::AwaitingFirstPacket);
    assert!(link.transport().sent.is_empty());
}

#[test]
fn unicast_control_from_peer_sends_no_ack() {
    let mut link = EspNowLink::new(MockTransport::default());
    link.learn_peer(CTRL).unwrap();
    let mut wd = LinkWatchdog::new(LINK_TIMEOUT_MS);
    let mut s = VehicleRunState::new();
    let o = handle_control(&mut link, &mut wd, &mut s, control(CTRL, VEH_MAC, 0, ControlPacket::BUTTON_A));
    assert!(o.accepted);
    assert_eq!(o.persist_peer, None);
    assert_eq!(o.motor, Some(MotorCommand::SetPwm(-10)));
    assert_eq!(s.last_button, ControlPacket::BUTTON_A);
    assert!(link.transport().sent.is_empty());
}

#[test]
fn brake_button_overrides_and_clears_manual_pwm() {
    let mut link = EspNowLink::new(MockTransport::default());
    let mut wd = LinkWatchdog::new(LINK_TIMEOUT_MS);
    let mut s = VehicleRunState::new();
    s.manual_pwm = Some(40);
    let o = handle_control(&mut link, &mut wd, &mut s, control(CTRL, VEH_MAC, 127, ControlPacket::BUTTON_C));
    assert_eq!(o.motor, Some(MotorCommand::Brake));
    assert_eq!(s.manual_pwm, None);
    assert_eq!(s.last_duty, 0);
    assert_eq!(s.last_button, ControlPacket::BUTTON_C);
}

#[test]
fn centred_stick_keeps_manual_override() {
    let mut link = EspNowLink::new(MockTransport::default());
    let mut wd = LinkWatchdog::new(LINK_TIMEOUT_MS);
    let mut s = VehicleRunState::new();
    s.manual_pwm = Some(-25);
    let o = handle_control(&mut link, &mut wd, &mut s, control(CTRL, VEH_MAC, 130, ControlPacket::BUTTON_JOY));
    assert_eq!(o.motor, None);
    assert_eq!(s.manual_pwm, Some(-25));
    assert_eq!(s.last_duty, -25);
    assert_eq!(s.last_button, 0); // JOY is not a colour button
    assert!(matches!(o.telemetry[1], BoardToHost::MotorState { duty: -25 }));
    // Stick out of the dead zone reclaims control.
    let o = handle_control(&mut link, &mut wd, &mut s, control(CTRL, VEH_MAC, 200, 0));
    assert_eq!(s.manual_pwm, None);
    // Ramped from the held -25 toward the stick's 57.
    assert_eq!(o.motor, Some(MotorCommand::SetPwm(-15)));
}

#[test]
fn failed_peer_registration_is_not_persisted() {
    let mut link = EspNowLink::new(MockTransport { fail_add_peer: true, ..Default::default() });
    let mut wd = LinkWatchdog::new(LINK_TIMEOUT_MS);
    let mut s = VehicleRunState::new();
    let o = handle_control(&mut link, &mut wd, &mut s, control(CTRL, BROADCAST_ADDRESS, 127, 0));
    assert!(o.accepted);
    assert_eq!(o.persist_peer, None);
    assert!(!link.is_paired());
    // Still unpaired, so no acknowledgement can be sent.
    assert!(link.transport().sent.is_empty());
}

#[test]
fn link_state_transitions_drive_motor_and_events() {
    let mut link = EspNowLink::new(MockTransport::default());
    let mut wd = LinkWatchdog::new(500);
    let mut s = VehicleRunState::new();

    let c = link_state_tick(&mut link, &wd, &mut s);
    assert_eq!(c.state, LinkState::AwaitingFirstPacket);
    assert!(c.event.is_none() && c.motor.is_none());

    wd.record_valid_packet(0);
    s.elapsed_ms = 100;
    let c = link_state_tick(&mut link, &wd, &mut s);
    assert_eq!(c.state, LinkState::Alive);
    assert!(c.blink);
    assert_eq!(c.motor, Some(MotorCommand::Enable));
    assert!(matches!(c.event, Some(BoardToHost::EspNowLinkState(LinkStateKind::Alive))));

    s.elapsed_ms = 700;
    s.last_duty = 60;
    let c = link_state_tick(&mut link, &wd, &mut s);
    assert_eq!(c.state, LinkState::TimedOut);
    assert_eq!(c.motor, Some(MotorCommand::Brake));
    assert_eq!(s.last_duty, 0);
    assert_eq!(s.last_state, LinkState::TimedOut);
    assert!(matches!(c.event, Some(BoardToHost::EspNowLinkState(LinkStateKind::TimedOut))));
}

#[test]
fn manual_pwm_is_held_every_tick() {
    let mut s = VehicleRunState::new();
    assert_eq!(hold_manual_pwm(&mut s), None);
    s.manual_pwm = Some(-70);
    assert_eq!(hold_manual_pwm(&mut s), Some(MotorCommand::SetPwm(-70)));
    assert_eq!(s.last_duty, -70);
}

#[test]
fn vehicle_led_colours() {
    let mut s = VehicleRunState::new();
    assert_eq!(vehicle::led_color(&mut s, LinkState::AwaitingFirstPacket), (16, 12, 0));
    assert_eq!(vehicle::led_color(&mut s, LinkState::Alive), (0, 16, 0));
    s.last_button = ControlPacket::BUTTON_B;
    assert_eq!(vehicle::led_color(&mut s, LinkState::Alive), (16, 16, 16));
    s.last_button = ControlPacket::BUTTON_D;
    assert_eq!(vehicle::led_color(&mut s, LinkState::Alive), (0, 0, 16));
    assert_eq!(vehicle::led_color(&mut s, LinkState::TimedOut), (2, 0, 0));
    assert_eq!(vehicle::led_color(&mut s, LinkState::TimedOut), (16, 0, 0));
    s.led_override = Some([1, 2, 3]);
    assert_eq!(vehicle::led_color(&mut s, LinkState::TimedOut), (1, 2, 3));
}

#[test]
fn vehicle_applies_host_commands() {
    let mut link = EspNowLink::new(MockTransport::default());
    let mut s = VehicleRunState::new();

    let o = vehicle::apply_local_cmd(HostToBoard::SetMotorPwm { duty: -30 }, &mut s, &mut link);
    assert_eq!(o.motor, vec![MotorCommand::SetPwm(-30)]);
    assert_eq!(s.manual_pwm, Some(-30));
    assert!(matches!(o.telemetry, Some(BoardToHost::MotorState { duty: -30 })));

    let o = vehicle::apply_local_cmd(HostToBoard::SetMotorEnable { r_en: true, l_en: false }, &mut s, &mut link);
    assert_eq!(o.motor, vec![MotorCommand::SetEnables { r_en: true, l_en: false }]);

    let o = vehicle::apply_local_cmd(HostToBoard::SetLed(Some([9, 8, 7])), &mut s, &mut link);
    assert!(o.led_ack);
    assert_eq!(s.led_override, Some([9, 8, 7]));

    vehicle::apply_local_cmd(HostToBoard::EnableRemoteTelemetry { on: true }, &mut s, &mut link);
    assert!(s.stream_to_peer);

    link.learn_peer(CTRL).unwrap();
    vehicle::apply_local_cmd(HostToBoard::ForPeer(payload(&[5, 6])), &mut s, &mut link);
    assert_eq!(link.transport().sent.last().cloned().unwrap(), (vec![0x02, 5, 6], CTRL));

    let o = vehicle::apply_local_cmd(HostToBoard::Repair, &mut s, &mut link);
    assert!(o.clear_pairing_store);
    assert!(!link.is_paired());

    let o = vehicle::apply_local_cmd(HostToBoard::Ping { version: 1 }, &mut s, &mut link);
    assert!(!o.led_ack && o.motor.is_empty() && o.telemetry.is_none() && !o.clear_pairing_store);
}

// ── gateway ───────────────────────────────────────────────────────────────────

#[test]
fn tunnel_traffic_only_from_paired_peer() {
    let mut link = EspNowLink::new(MockTransport::default());
    assert!(relay_peer_telemetry(&link, &CTRL, &[1, 2], BoardKind::Controller).is_none());
    assert!(accept_tunnel_cmd(&link, &CTRL, &[1, 2]).is_none());
    link.learn_peer(CTRL).unwrap();
    match relay_peer_telemetry(&link, &CTRL, &[1, 2], BoardKind::Controller) {
        Some(BoardToHost::FromPeer { source, payload }) => {
            assert_eq!(source, BoardKind::Controller);
            assert_eq!(payload.as_slice(), &[1, 2]);
        }
        other => panic!("expected FromPeer, got {other:?}"),
    }
    assert!(relay_peer_telemetry(&link, &OTHER, &[1, 2], BoardKind::Controller).is_none());
    assert!(relay_peer_telemetry(&link, &CTRL, &[0u8; 49], BoardKind::Controller).is_none());
    assert_eq!(accept_tunnel_cmd(&link, &CTRL, &[1, 2]), Some(&[1u8, 2][..]));
    assert_eq!(accept_tunnel_cmd(&link, &CTRL, &[7u8; 60]).unwrap().len(), 48);
    assert!(same_mac(&CTRL, &CTRL) && !same_mac(&CTRL, &OTHER));
}

#[test]
fn pair_ack_learned_only_while_unpaired() {
    let mut link = EspNowLink::new(MockTransport::default());
    assert_eq!(on_pair_ack(&mut link, VEH_MAC), Some(VEH_MAC));
    assert_eq!(link.paired_peer(), Some(VEH_MAC));
    assert_eq!(on_pair_ack(&mut link, OTHER), None);
    assert_eq!(link.paired_peer(), Some(VEH_MAC));
}

// ── controller ────────────────────────────────────────────────────────────────

fn stick(x: u8, y: u8) -> JoystickState {
    JoystickState {
        x,
        y,
        buttons: JoystickButtons { joy: false, c: false, a: true, b: false, d: false },
        raw_buttons: [8, 8, 0, 8, 8],
    }
}

#[test]
fn first_tick_sends_keepalive_then_changes() {
    let mut s = ControllerRunState::new();
    // The first tick without a reading sends a neutral-state keepalive at once.
    let t = controller_tick(&mut s, None);
    let (reason, packet) = t.tx.unwrap();
    assert_eq!(reason, TxReason::Keepalive);
    assert_eq!(packet, ControlPacket::new(1, 128, 128, 0));
    assert_eq!(s.consecutive_read_failures, 1);
    assert_eq!(s.ticks_since_tx, 0);

    // A new reading is a change: sent with telemetry.
    advance_clock(&mut s);
    let t = controller_tick(&mut s, Some(stick(128, 128)));
    let (reason, packet) = t.tx.unwrap();
    assert_eq!(reason, TxReason::Change);
    assert_eq!(packet, ControlPacket::new(2, 128, 128, ControlPacket::BUTTON_A));
    assert!(matches!(t.telemetry, Some(BoardToHost::JoystickState { x: 128, y: 128, buttons: 4 })));
    assert!(t.log_status);

    // The same centred reading again is not a change, and the interval has not run.
    advance_clock(&mut s);
    let t = controller_tick(&mut s, Some(stick(128, 128)));
    assert!(t.tx.is_none() && t.telemetry.is_none());

    // An off-centre stick always counts as a change.
    let t = controller_tick(&mut s, Some(stick(200, 128)));
    assert_eq!(t.tx.unwrap().0, TxReason::Change);
    assert!(!t.log_status); // status log spaced 250 ms apart
}

#[test]
fn keepalive_after_interval_and_neutral_after_failures() {
    let mut s = ControllerRunState::new();
    controller_tick(&mut s, Some(stick(128, 128)));
    for _ in 0..10 {
        advance_clock(&mut s);
    }
    let t = controller_tick(&mut s, Some(stick(128, 128)));
    let (reason, packet) = t.tx.unwrap();
    assert_eq!(reason, TxReason::Keepalive);
    assert_eq!(packet.buttons, ControlPacket::BUTTON_A);

    for _ in 0..10 {
        advance_clock(&mut s);
    }
    controller_tick(&mut s, None);
    controller_tick(&mut s, None);
    for _ in 0..10 {
        advance_clock(&mut s);
    }
    let t = controller_tick(&mut s, None);
    let (reason, packet) = t.tx.unwrap();
    assert_eq!(reason, TxReason::KeepaliveNeutral);
    let n = neutral_joystick_state();
    assert_eq!((packet.x, packet.y, packet.buttons), (n.x, n.y, 0));
    assert_eq!(s.consecutive_read_failures, 3);
}

#[test]
fn sequence_wraps() {
    let mut s = ControllerRunState::new();
    s.tx_seq = 65535;
    let t = controller_tick(&mut s, Some(stick(1, 1)));
    assert_eq!(t.tx.unwrap().1.sequence, 0);
}

#[test]
fn controller_led_and_commands() {
    let mut s = ControllerRunState::new();
    assert_eq!(controller::led_color(&mut s), (16, 0, 0));
    assert_eq!(controller::led_color(&mut s), (0, 0, 16));
    let mut link = EspNowLink::new(MockTransport::default());
    let o = controller::apply_local_cmd(HostToBoard::SetLed(Some([4, 5, 6])), &mut s, &mut link);
    assert!(o.led_ack);
    assert_eq!(controller::led_color(&mut s), (4, 5, 6));
    controller::apply_local_cmd(HostToBoard::EnableRemoteTelemetry { on: true }, &mut s, &mut link);
    assert!(s.stream_to_peer);
    link.learn_peer(VEH_MAC).unwrap();
    controller::apply_local_cmd(HostToBoard::ForPeer(payload(&[1])), &mut s, &mut link);
    assert_eq!(link.transport().sent.last().cloned().unwrap(), (vec![0x02, 1], VEH_MAC));
    let o = controller::apply_local_cmd(HostToBoard::Repair, &mut s, &mut link);
    assert!(o.clear_pairing_store && !link.is_paired());
    let o = controller::apply_local_cmd(HostToBoard::SetMotorPwm { duty: 5 }, &mut s, &mut link);
    assert!(!o.led_ack && !o.clear_pairing_store);
}

#[test]
fn usb_commands_are_routed() {
    assert!(matches!(
        route_host_command(Some(HostToBoard::Ping { version: 9 })),
        HostCommandRoute::Reply(BoardToHost::Pong { version: 1, board: BoardKind::Controller })
    ));
    assert!(matches!(
        route_host_command(Some(HostToBoard::Repair)),
        HostCommandRoute::Forward(HostToBoard::Repair)
    ));
    assert!(matches!(
        route_host_command(Some(HostToBoard::SetMotorPwm { duty: 1 })),
        HostCommandRoute::Reply(BoardToHost::Error(HostError::NotApplicable))
    ));
    assert!(matches!(
        route_host_command(None),
        HostCommandRoute::Reply(BoardToHost::Error(HostError::ParseError))
    ));
    // A forwarded command is answered only when the main loop's queue is full.
    assert!(forward_reply(true).is_none());
    assert!(matches!(forward_reply(false), Some(BoardToHost::Error(HostError::Busy))));
}

#[derive(Default)]
struct MockBridge {
    forward: u8,
    reverse: u8,
    r_en: bool,
    l_en: bool,
    calls: Vec<&'static str>,
}

impl HBridge for MockBridge {
    fn set_pwm(&mut self, duty: i8) {
        let pct = duty.unsigned_abs().min(100);
        if duty > 0 {
            self.reverse = 0;
            self.forward = pct;
        } else if duty < 0 {
            self.forward = 0;
            self.reverse = pct;
        } else {
            self.forward = 0;
            self.reverse = 0;
        }
        self.calls.push("set_pwm");
    }
    fn brake(&mut self) {
        self.forward = 0;
        self.reverse = 0;
        self.r_en = true;
        self.l_en = true;
        self.calls.push("brake");
    }
    fn stop(&mut self) {
        self.forward = 0;
        self.reverse = 0;
        self.r_en = false;
        self.l_en = false;
        self.calls.push("stop");
    }
    fn enable(&mut self) {
        self.r_en = true;
        self.l_en = true;
        self.calls.push("enable");
    }
    fn set_r_en(&mut self, high: bool) {
        self.r_en = high;
        self.calls.push("set_r_en");
    }
    fn set_l_en(&mut self, high: bool) {
        self.l_en = high;
        self.calls.push("set_l_en");
    }
    fn read_current(&mut self) -> Option<CurrentReading> {
        None
    }
}

#[test]
fn motor_commands_reach_the_bridge() {
    let mut bridge = MockBridge::default();
    apply_motor_command(&mut bridge, MotorCommand::SetPwm(-120));
    assert_eq!((bridge.forward, bridge.reverse), (0, 100));
    apply_motor_command(&mut bridge, MotorCommand::SetEnables { r_en: true, l_en: false });
    assert!(bridge.r_en);
    assert!(!bridge.l_en);
    assert_eq!((bridge.forward, bridge.reverse), (0, 100));
    apply_motor_command(&mut bridge, MotorCommand::Brake);
    assert_eq!((bridge.forward, bridge.reverse), (0, 0));
    assert!(bridge.r_en && bridge.l_en);
    apply_motor_command(&mut bridge, MotorCommand::SetPwm(40));
    assert_eq!((bridge.forward, bridge.reverse), (40, 0));
    apply_motor_command(&mut bridge, MotorCommand::Enable);
    assert_eq!((bridge.forward, bridge.reverse), (40, 0));
    assert_eq!(
        bridge.calls,
        vec!["set_pwm", "set_r_en", "set_l_en", "brake", "set_pwm", "enable"]
    );
}

#[test]
fn vehicle_tick_schedule() {
    let mut s = VehicleRunState::new();
    let samples: Vec<bool> = (0..8).map(|_| begin_tick(&mut s)).collect();
    assert_eq!(samples, vec![false, false, false, true, false, false, false, true]);
    assert_eq!(s.tick, 8);
    s.tick = u64::MAX;
    assert!(begin_tick(&mut s));
    assert_eq!(s.tick, 0);

    end_tick(&mut s);
    end_tick(&mut s);
    assert_eq!(s.elapsed_ms, 100);
    s.elapsed_ms = u64::MAX - 10;
    end_tick(&mut s);
    assert_eq!(s.elapsed_ms, u64::MAX);
}

#[test]
fn telemetry_mirrors_only_when_streaming_and_paired() {
    let mut link = EspNowLink::new(MockTransport::default());
    let mut s = VehicleRunState::new();
    assert!(!mirror_to_peer(&s, &link));
    s.stream_to_peer = true;
    assert!(!mirror_to_peer(&s, &link));
    link.learn_peer(CTRL).unwrap();
    assert!(mirror_to_peer(&s, &link));
    s.stream_to_peer = false;
    assert!(!mirror_to_peer(&s, &link));
}

#[test]
fn read_failures_are_logged_sparsely() {
    let logged: Vec<u8> = (0..=255u8).filter(|&n| should_log_read_failure(n)).collect();
    assert_eq!(logged[..4], [0, 1, 10, 20]);
    assert_eq!(logged.len(), 27);
    assert_eq!(*logged.last().unwrap(), 250);
}

#[test]
fn pair_ack_from_known_peer_is_learned_again_after_repair() {
    let mut link = EspNowLink::new(MockTransport::default());
    assert_eq!(on_pair_ack(&mut link, VEH_MAC), Some(VEH_MAC));
    link.reset_pairing();
    assert!(!link.is_paired());
    // The transport already knows the peer, so learning it again succeeds
    // even though registering a new peer would fail now.
    let mut t = MockTransport::default();
    t.peers.push(VEH_MAC);
    t.fail_add_peer = true;
    let mut link = EspNowLink::new(t);
    assert_eq!(on_pair_ack(&mut link, VEH_MAC), Some(VEH_MAC));
    assert_eq!(link.paired_peer(), Some(VEH_MAC));
    assert_eq!(on_pair_ack(&mut link, OTHER), None);
}

#[test]
fn full_forward_is_reached_over_ten_ticks() {
    let mut link = EspNowLink::new(MockTransport::default());
    link.learn_peer(CTRL).unwrap();
    let mut wd = LinkWatchdog::new(LINK_TIMEOUT_MS);
    let mut s = VehicleRunState::new();
    let mut duties = Vec::new();
    for _ in 0..11 {
        let o = handle_control(&mut link, &mut wd, &mut s, control(CTRL, VEH_MAC, 255, 0));
        match o.motor {
            Some(MotorCommand::SetPwm(d)) => duties.push(d),
            other => panic!("expected SetPwm, got {other:?}"),
        }
    }
    assert_eq!(duties, vec![10, 20, 30, 40, 50, 60, 70, 80, 90, 100, 100]);
    // Releasing the stick ramps back down the same way.
    let o = handle_control(&mut link, &mut wd, &mut s, control(CTRL, VEH_MAC, 127, 0));
    assert_eq!(o.motor, Some(MotorCommand::SetPwm(90)));
    // The brake is immediate.
    let o = handle_control(&mut link, &mut wd, &mut s, control(CTRL, VEH_MAC, 255, ControlPacket::BUTTON_C));
    assert_eq!(o.motor, Some(MotorCommand::Brake));
    assert_eq!(s.last_duty, 0);
}

#[test]
fn manual_override_ramps_only_when_asked() {
    let mut link = EspNowLink::new(MockTransport::default());
    let mut s = VehicleRunState::new();
    assert!(!s.manual_ramp);
    let o = vehicle::apply_local_cmd(HostToBoard::SetManualPwmRamp { on: true }, &mut s, &mut link);
    assert!(o.motor.is_empty() && o.telemetry.is_none());
    assert!(s.manual_ramp);

    let o = vehicle::apply_local_cmd(HostToBoard::SetMotorPwm { duty: 35 }, &mut s, &mut link);
    assert_eq!(o.motor, vec![MotorCommand::SetPwm(10)]);
    assert!(matches!(o.telemetry, Some(BoardToHost::MotorState { duty: 10 })));
    assert_eq!(s.manual_pwm, Some(35));
    assert_eq!(hold_manual_pwm(&mut s), Some(MotorCommand::SetPwm(20)));
    assert_eq!(hold_manual_pwm(&mut s), Some(MotorCommand::SetPwm(30)));
    assert_eq!(hold_manual_pwm(&mut s), Some(MotorCommand::SetPwm(35)));
    assert_eq!(hold_manual_pwm(&mut s), Some(MotorCommand::SetPwm(35)));

    vehicle::apply_local_cmd(HostToBoard::SetManualPwmRamp { on: false }, &mut s, &mut link);
    let o = vehicle::apply_local_cmd(HostToBoard::SetMotorPwm { duty: -80 }, &mut s, &mut link);
    assert_eq!(o.motor, vec![MotorCommand::SetPwm(-80)]);
    assert_eq!(s.last_duty, -80);
}

#[test]
fn vehicle_ignores_frames_from_strangers() {
    let mut link = EspNowLink::new(MockTransport::default());
    link.learn_peer(CTRL).unwrap();
    let mut wd = LinkWatchdog::new(LINK_TIMEOUT_MS);
    let mut s = VehicleRunState::new();

    let bytes = [1u8, 2, 3];
    for inbound in [
        Inbound::Control(control(OTHER, VEH_MAC, 255, 0)),
        Inbound::TunnelCmd { peer: OTHER, bytes: &bytes },
        Inbound::TunnelEvt { peer: OTHER, bytes: &bytes },
        Inbound::PairAck { peer: CTRL },
        Inbound::PairAck { peer: OTHER },
    ] {
        assert!(matches!(on_inbound(&mut link, &mut wd, &mut s, inbound), InboundAction::Ignored));
    }
    assert_eq!(link.paired_peer(), Some(CTRL));
    assert_eq!(wd.state(10), LinkState::AwaitingFirstPacket);
    assert_eq!(s.last_duty, 0);
    assert!(link.transport().sent.is_empty());

    match on_inbound(&mut link, &mut wd, &mut s, Inbound::TunnelCmd { peer: CTRL, bytes: &bytes }) {
        InboundAction::RunCommand(c) => assert_eq!(c, &bytes),
        _ => panic!("expected RunCommand"),
    }
    match on_inbound(&mut link, &mut wd, &mut s, Inbound::TunnelEvt { peer: CTRL, bytes: &bytes }) {
        InboundAction::Forward(BoardToHost::FromPeer { source, payload }) => {
            assert_eq!(source, BoardKind::Controller);
            assert_eq!(payload.as_slice(), &bytes);
        }
        _ => panic!("expected Forward"),
    }
    match on_inbound(&mut link, &mut wd, &mut s, Inbound::Control(control(CTRL, VEH_MAC, 255, 0))) {
        InboundAction::Control(o) => assert_eq!(o.motor, Some(MotorCommand::SetPwm(10))),
        _ => panic!("expected Control"),
    }
}
