//! The vehicle's control decisions, separated from its hardware loop.
//!
//! The firmware loop drains the radio, ticks a 50 ms timer and drives the
//! motor, LED, USB and flash; every decision it makes on the way goes through
//! the functions here, which return what to do as plain values
//! ([`MotorCommand`], telemetry messages, what to persist).
use vstd::prelude::*;
use crate::drive::{axis_duty, ramp_duty, ramp_toward, y_to_duty, RAMP_STEP};
use crate::espnow::{
    last_peer_request_ok, peer_request_added, EspNowLink, EspNowTransport, Inbound, InboundView, ReceivedControl,
    BROADCAST_ADDRESS,
};
use crate::frame::{frame_bytes, FrameKind};
use crate::gateway::{accept_tunnel_cmd, relay_peer_telemetry, same_mac};
use crate::hbridge::HBridge;
use crate::motor::{duties_for, duty_writes, zero_writes, DutyWrite, PwmDuties};
use crate::host_proto::{
    relay_as_slice, relay_bytes, BoardKind, BoardToHost, HostToBoard, LinkStateKind, RELAY_PAYLOAD_MAX,
};
use crate::keepalive::{link_state_at, LinkState, LinkWatchdog};
use crate::protocol::ControlPacket;

verus! {

/// Vehicle control-loop period.
pub const VEHICLE_LOOP_INTERVAL_MS: u64 = 50;

/// Max ESP-NOW frames drained per tick (the radio RX queue is 10 deep).
pub const MAX_RX_DRAIN_PER_TICK: usize = 8;

/// Buttons whose last press selects the LED colour: A, B, C and D.
pub const TRACKED_BUTTONS: u8 = 30;

/// Loop state of the vehicle.
#[derive(Copy, Clone, Debug, PartialEq, Eq)]
pub struct VehicleRunState {
    pub elapsed_ms: u64,
    pub last_state: LinkState,
    pub last_button: u8,
    pub tick: u64,
    pub led_toggle: bool,
    pub led_override: Option<[u8; 3]>,
    /// When set, this board mirrors its telemetry to the peer over the tunnel.
    pub stream_to_peer: bool,
    /// USB/tunnel manual motor override. While `Some`, the motor holds this duty
    /// every tick; cleared when the physical operator reclaims control.
    pub manual_pwm: Option<i8>,
    /// Feed a latched manual override through the drive ramp instead of
    /// applying it at once (off by default).
    pub manual_ramp: bool,
    /// Last duty applied to the motor: the start of the next ramp step, and
    /// reported in `CurrentSenseRaw` telemetry.
    pub last_duty: i16,
}

/// A command for the traction motor driver.
#[derive(Copy, Clone, Debug, PartialEq, Eq)]
pub enum MotorCommand {
    /// Electrodynamic brake: both half-bridges enabled, both PWM inputs at 0.
    Brake,
    /// Signed PWM duty (-100–100).
    SetPwm(i8),
    /// Re-enable both half-bridges.
    Enable,
    /// Set the R_EN and L_EN enable pins.
    SetEnables { r_en: bool, l_en: bool },
}

/// The PWM duties a bridge holds after `cmd`, starting from `before`: a brake
/// zeroes both inputs, a duty sets them by [`duties_for`], and the enable
/// commands leave them alone.
pub open spec fn duties_after(cmd: MotorCommand, before: PwmDuties) -> PwmDuties {
    match cmd {
        MotorCommand::Brake => PwmDuties { forward: 0, reverse: 0 },
        MotorCommand::SetPwm(duty) => duties_for(duty as int),
        MotorCommand::Enable => before,
        MotorCommand::SetEnables { .. } => before,
    }
}

/// Carry out one motor command on the power stage. A brake or an enable
/// leaves the bridge enabled, so a later duty takes effect at once.
pub fn apply_motor_command<B: HBridge>(bridge: &mut B, cmd: MotorCommand)
    ensures
        final(bridge).duties() == duties_after(cmd, old(bridge).duties()),
        cmd is Brake || cmd is Enable ==> final(bridge).enabled(),
        cmd is SetPwm ==> final(bridge).enabled() == old(bridge).enabled(),
        final(bridge).writes() == old(bridge).writes() + match cmd {
            MotorCommand::Brake => zero_writes(),
            MotorCommand::SetPwm(duty) => duty_writes(duty as int),
            _ => Seq::<DutyWrite>::empty(),
        },
{
    match cmd {
        MotorCommand::Brake => bridge.brake(),
        MotorCommand::SetPwm(duty) => bridge.set_pwm(duty),
        MotorCommand::Enable => bridge.enable(),
        MotorCommand::SetEnables { r_en, l_en } => {
            bridge.set_r_en(r_en);
            bridge.set_l_en(l_en);
        },
    }
}

/// The state the loop starts in.
pub open spec fn initial_run_state() -> VehicleRunState {
    VehicleRunState {
        elapsed_ms: 0,
        last_state: LinkState::AwaitingFirstPacket,
        last_button: 0,
        tick: 0,
        led_toggle: false,
        led_override: None,
        stream_to_peer: false,
        manual_pwm: None,
        manual_ramp: false,
        last_duty: 0,
    }
}

impl VehicleRunState {
    pub fn new() -> (s: Self)
        ensures
            s == initial_run_state(),
    {
        VehicleRunState {
            elapsed_ms: 0,
            last_state: LinkState::AwaitingFirstPacket,
            last_button: 0,
            tick: 0,
            led_toggle: false,
            led_override: None,
            stream_to_peer: false,
            manual_pwm: None,
            manual_ramp: false,
            last_duty: 0,
        }
    }
}

/// The brake button (C) is held.
pub open spec fn brake_pressed(buttons: u8) -> bool {
    buttons & 2u8 != 0
}

/// A physical operator (brake button, or joystick out of its dead zone)
/// reclaims control from a USB manual override.
pub open spec fn operator_reclaims(p: ControlPacket) -> bool {
    brake_pressed(p.buttons) || axis_duty(p.y) != 0
}

/// The manual override left after a control packet.
pub open spec fn manual_after(p: ControlPacket, manual: Option<i8>) -> Option<i8> {
    if operator_reclaims(p) { None } else { manual }
}

/// The duty applied when the joystick drives: one ramp step from the duty
/// applied last toward the stick's duty.
pub open spec fn joystick_duty(p: ControlPacket, s: VehicleRunState) -> int {
    ramp_toward(s.last_duty as int, axis_duty(p.y))
}

/// The duty in force after a control packet: 0 while braking; else, while a
/// manual override holds, that override (or, when it is ramped, the duty
/// applied so far, which the per-tick hold moves on); else the ramped
/// joystick duty.
pub open spec fn control_duty(p: ControlPacket, s: VehicleRunState) -> int {
    if brake_pressed(p.buttons) {
        0
    } else if manual_after(p, s.manual_pwm) is Some {
        if s.manual_ramp { s.last_duty as int } else { manual_after(p, s.manual_pwm)->0 as int }
    } else {
        joystick_duty(p, s)
    }
}

/// The motor command a control packet calls for (none while a manual
/// override holds).
pub open spec fn control_motor(p: ControlPacket, s: VehicleRunState) -> Option<MotorCommand> {
    if brake_pressed(p.buttons) {
        Some(MotorCommand::Brake)
    } else if manual_after(p, s.manual_pwm) is Some {
        None
    } else {
        Some(MotorCommand::SetPwm(joystick_duty(p, s) as i8))
    }
}

/// The last watched button press, updated when the packet holds one.
pub open spec fn tracked_after(buttons: u8, last: u8) -> u8 {
    if buttons & TRACKED_BUTTONS != 0 { buttons & TRACKED_BUTTONS } else { last }
}

/// The loop state after an accepted control packet.
pub open spec fn state_after_control(s: VehicleRunState, p: ControlPacket) -> VehicleRunState {
    VehicleRunState {
        manual_pwm: manual_after(p, s.manual_pwm),
        last_duty: control_duty(p, s) as i16,
        last_button: tracked_after(p.buttons, s.last_button),
        ..s
    }
}

/// Safety over remote control: the brake button always brakes and reports
/// duty 0, and a physical operator (brake, or stick out of its dead zone)
/// always clears a USB manual override and drives the motor directly.
pub proof fn lemma_operator_reclaims_control(s: VehicleRunState, p: ControlPacket)
    ensures
        brake_pressed(p.buttons) ==> control_motor(p, s) == Some(MotorCommand::Brake)
            && control_duty(p, s) == 0,
        operator_reclaims(p) ==> state_after_control(s, p).manual_pwm is None
            && control_motor(p, s) is Some,
        !operator_reclaims(p) && s.manual_pwm is Some ==> control_motor(p, s) is None
            && state_after_control(s, p).manual_pwm == s.manual_pwm,
{
}

/// A stick pushed out of its dead zone (below 117 or above 137), either
/// way, always takes control back from a USB manual override: the override
/// is cleared and, unless the brake is held, the motor is driven toward the
/// stick's duty: by exactly one step of at most [`RAMP_STEP`] from the duty
/// applied before, landing on the stick's duty when it is that close, and in
/// the stick's direction (forward above the dead zone, reverse below it).
pub proof fn lemma_stick_reclaims_control(s: VehicleRunState, p: ControlPacket)
    requires
        p.y < 117 || p.y > 137,
    ensures
        state_after_control(s, p).manual_pwm is None,
        p.buttons & 2u8 == 0 ==> ({
            let d = control_duty(p, s);
            let target = axis_duty(p.y);
            &&& control_motor(p, s) == Some(MotorCommand::SetPwm(d as i8))
            &&& state_after_control(s, p).last_duty == d
            &&& -RAMP_STEP <= d - s.last_duty <= RAMP_STEP
            &&& (d == target || d - s.last_duty == RAMP_STEP || s.last_duty - d == RAMP_STEP)
            &&& (s.last_duty <= target ==> s.last_duty <= d <= target)
            &&& (target <= s.last_duty ==> target <= d <= s.last_duty)
            &&& (p.y > 137 ==> target > 0)
            &&& (p.y < 117 ==> target < 0)
        }),
{
    crate::drive::lemma_axis_duty_shape(p.y);
    crate::drive::lemma_ramp_step_bounded(s.last_duty as int, axis_duty(p.y));
}

/// Joystick drive is slew-rate limited: the duty a control packet applies
/// differs from the duty applied before by at most [`RAMP_STEP`], and lies
/// between it and the stick's duty.
pub proof fn lemma_joystick_drive_is_ramped(s: VehicleRunState, p: ControlPacket)
    requires
        control_motor(p, s) matches Some(MotorCommand::SetPwm(_)),
    ensures
        -RAMP_STEP <= control_duty(p, s) - s.last_duty <= RAMP_STEP,
        s.last_duty <= axis_duty(p.y) ==> s.last_duty <= control_duty(p, s) <= axis_duty(p.y),
        axis_duty(p.y) <= s.last_duty ==> axis_duty(p.y) <= control_duty(p, s) <= s.last_duty,
{
    crate::drive::lemma_ramp_step_bounded(s.last_duty as int, axis_duty(p.y));
}

/// What the vehicle does with one received control packet.
pub struct ControlOutcome {
    /// `false` when the packet came from a device other than the paired peer
    /// and was ignored.
    pub accepted: bool,
    /// A newly paired controller MAC to persist.
    pub persist_peer: Option<[u8; 6]>,
    pub motor: Option<MotorCommand>,
    /// Telemetry to emit, in order.
    pub telemetry: Vec<BoardToHost>,
}

/// What handling a control packet does, from the link, watchdog and loop
/// state before (`old_*`) to after (`new_*`), with outcome `o`: a packet from
/// a device other than the paired peer changes nothing; otherwise the
/// watchdog is fed, an unpaired vehicle asks the transport to register the
/// sender and learns it exactly when that request succeeds (always when the
/// transport already knows it), a broadcast packet is answered with a
/// `PairAck`, and the drive decision and telemetry follow the packet.
pub open spec fn control_handled<T: EspNowTransport>(
    old_link: EspNowLink<T>,
    new_link: EspNowLink<T>,
    old_wd: LinkWatchdog,
    new_wd: LinkWatchdog,
    old_s: VehicleRunState,
    new_s: VehicleRunState,
    received: ReceivedControl,
    o: ControlOutcome,
) -> bool {
    let mac = received.meta.peer_mac;
    let p = received.packet;
    let foreign = old_link.spec_peer() is Some && old_link.spec_peer() != Some(mac);
    &&& foreign ==> {
        &&& !o.accepted
        &&& o.persist_peer is None
        &&& o.motor is None
        &&& o.telemetry@.len() == 0
        &&& new_link == old_link
        &&& new_wd == old_wd
        &&& new_s == old_s
    }
    &&& !foreign ==> {
        let learned = old_link.spec_peer() is None && new_link.spec_peer() is Some;
        &&& o.accepted
        &&& new_wd.timeout_ms() == old_wd.timeout_ms()
        &&& new_wd.last_valid_rx_ms() == Some(old_s.elapsed_ms)
        &&& new_link.spec_last_sequence() == old_link.spec_last_sequence()
        &&& old_link.spec_peer() is Some ==> new_link.spec_peer() == old_link.spec_peer()
        &&& old_link.spec_peer() is None ==> (new_link.spec_peer() is None || new_link.spec_peer() == Some(mac))
        &&& old_link.spec_peer() is None && old_link.spec_transport().peers().contains(mac)
            ==> new_link.spec_peer() == Some(mac) && o.persist_peer == Some(mac)
        &&& old_link.spec_peer() is None ==> {
            &&& peer_request_added(old_link, new_link, mac)
            &&& (o.persist_peer is Some <==> last_peer_request_ok(new_link))
        }
        &&& old_link.spec_peer() is Some
            ==> new_link.spec_transport().peer_requests() == old_link.spec_transport().peer_requests()
        &&& o.persist_peer == (if learned { Some(mac) } else { None::<[u8; 6]> })
        &&& new_link.spec_transport().peers() == (if learned {
            old_link.spec_transport().peers().insert(mac)
        } else {
            old_link.spec_transport().peers()
        })
        &&& new_link.spec_sent() == (if received.meta.dst_mac == BROADCAST_ADDRESS && new_link.spec_peer() is Some {
            old_link.spec_sent().push((frame_bytes(FrameKind::PairAck, Seq::<u8>::empty()), new_link.spec_peer()->0))
        } else {
            old_link.spec_sent()
        })
        &&& new_s == state_after_control(old_s, p)
        &&& o.motor == control_motor(p, old_s)
        &&& o.telemetry@ == seq![
            BoardToHost::ReceivedPacket { x: p.x, y: p.y, buttons: p.buttons },
            BoardToHost::MotorState { duty: control_duty(p, old_s) as i16 },
        ]
    }
}

/// Handle a fresh control packet.
///
/// Once paired, control from any other device is ignored. Otherwise the
/// watchdog is fed; while unpaired the sender is learned as the peer (and
/// returned for persisting); a broadcast packet is answered with a `PairAck`
/// so the controller can switch to unicast; and the drive decision is made:
/// the brake button brakes, a held manual override keeps the motor, and
/// otherwise the motor takes one ramp step toward the joystick Y duty.
pub fn handle_control<T: EspNowTransport>(
    link: &mut EspNowLink<T>,
    watchdog: &mut LinkWatchdog,
    s: &mut VehicleRunState,
    received: ReceivedControl,
) -> (o: ControlOutcome)
    ensures
        control_handled(*old(link), *final(link), *old(watchdog), *final(watchdog), *old(s), *final(s), received, o),
        o.accepted && (received.packet.y < 117 || received.packet.y > 137) ==> final(s).manual_pwm is None,
        o.accepted && (received.packet.y < 117 || received.packet.y > 137) && received.packet.buttons & 2u8 == 0
            ==> (o.motor matches Some(MotorCommand::SetPwm(d))
                && (-100 <= old(s).last_duty <= 100 ==> d as int == final(s).last_duty)
                && -RAMP_STEP <= final(s).last_duty - old(s).last_duty <= RAMP_STEP),
        o.accepted && received.packet.buttons & 2u8 != 0
            ==> o.motor == Some(MotorCommand::Brake) && final(s).last_duty == 0,
{
    let mac = received.meta.peer_mac;
    let packet = received.packet;
    if let Some(peer) = link.paired_peer() {
        if !same_mac(&mac, &peer) {
            return ControlOutcome { accepted: false, persist_peer: None, motor: None, telemetry: Vec::new() };
        }
    }
    watchdog.record_valid_packet(s.elapsed_ms);

    let mut persist_peer = None;
    if !link.is_paired() {
        if link.learn_peer(mac).is_ok() {
            persist_peer = Some(mac);
        }
    }
    if same_mac(&received.meta.dst_mac, &BROADCAST_ADDRESS) {
        let _ = link.send_pair_ack();
    }

    let brake = packet.buttons & ControlPacket::BUTTON_C != 0;
    let joystick_duty = y_to_duty(packet.y);
    if brake || joystick_duty != 0 {
        s.manual_pwm = None;
    }
    proof {
        crate::drive::lemma_axis_duty_shape(packet.y);
    }
    let (duty, motor): (i16, Option<MotorCommand>) = if brake {
        (0, Some(MotorCommand::Brake))
    } else if let Some(pwm) = s.manual_pwm {
        (if s.manual_ramp { s.last_duty } else { pwm as i16 }, None)
    } else {
        let ramped = ramp_duty(s.last_duty, joystick_duty);
        (ramped, Some(MotorCommand::SetPwm(ramped as i8)))
    };
    s.last_duty = duty;
    let watched = ControlPacket::BUTTON_A | ControlPacket::BUTTON_B | ControlPacket::BUTTON_C | ControlPacket::BUTTON_D;
    assert(watched == TRACKED_BUTTONS) by (bit_vector)
        requires watched == 4u8 | 8u8 | 2u8 | 16u8;
    if packet.buttons & watched != 0 {
        s.last_button = packet.buttons & watched;
    }
    let mut telemetry: Vec<BoardToHost> = Vec::new();
    telemetry.push(BoardToHost::ReceivedPacket { x: packet.x, y: packet.y, buttons: packet.buttons });
    telemetry.push(BoardToHost::MotorState { duty });
    assert(telemetry@ =~= seq![
        BoardToHost::ReceivedPacket { x: packet.x, y: packet.y, buttons: packet.buttons },
        BoardToHost::MotorState { duty },
    ]);
    proof {
        if packet.y < 117 || packet.y > 137 {
            lemma_stick_reclaims_control(*old(s), packet);
        }
        crate::drive::lemma_ramp_step_bounded(old(s).last_duty as int, axis_duty(packet.y));
    }
    ControlOutcome { accepted: true, persist_peer, motor, telemetry }
}

/// What the vehicle loop does with one drained radio frame.
pub enum InboundAction<'a> {
    /// A control packet from the controller (or, while unpaired, from the
    /// device being learned) was handled.
    Control(ControlOutcome),
    /// Tunnelled command bytes from the paired peer, at most
    /// [`RELAY_PAYLOAD_MAX`] of them, to decode and apply as a local command.
    RunCommand(&'a [u8]),
    /// The paired peer's telemetry, to forward to USB.
    Forward(BoardToHost),
    /// Nothing to do.
    Ignored,
}

/// The device a received frame came from.
pub open spec fn inbound_source(i: InboundView) -> [u8; 6] {
    match i {
        InboundView::Control(rc) => rc.meta.peer_mac,
        InboundView::TunnelCmd { peer, .. } => peer,
        InboundView::TunnelEvt { peer, .. } => peer,
        InboundView::PairAck { peer } => peer,
    }
}

/// Dispatch one frame drained from the radio. Once paired, a frame from any
/// other device is ignored and changes nothing; a `PairAck` is always
/// ignored (the vehicle starts pairing, it is not acknowledged); tunnel
/// frames count only from the paired peer. A control packet is handled as by
/// [`handle_control`]; a tunnelled command is handed back for decoding; the
/// peer's telemetry is wrapped for USB when it fits a relay payload.
pub fn on_inbound<'a, T: EspNowTransport>(
    link: &mut EspNowLink<T>,
    watchdog: &mut LinkWatchdog,
    s: &mut VehicleRunState,
    inbound: Inbound<'a>,
) -> (a: InboundAction<'a>)
    ensures
        ((old(link).spec_peer() is Some && old(link).spec_peer() != Some(inbound_source(inbound@)))
            || inbound is PairAck) ==> {
            &&& a is Ignored
            &&& *final(link) == *old(link)
            &&& *final(watchdog) == *old(watchdog)
            &&& *final(s) == *old(s)
        },
        !(inbound is Control) ==> {
            &&& *final(link) == *old(link)
            &&& *final(watchdog) == *old(watchdog)
            &&& *final(s) == *old(s)
        },
        match inbound {
            Inbound::Control(rc) => (old(link).spec_peer() is None || old(link).spec_peer() == Some(rc.meta.peer_mac))
                ==> (a matches InboundAction::Control(o)
                    && control_handled(*old(link), *final(link), *old(watchdog), *final(watchdog), *old(s), *final(s), rc, o)),
            Inbound::TunnelCmd { peer, bytes } => old(link).spec_peer() == Some(peer)
                ==> (a matches InboundAction::RunCommand(c) && c@ == bytes@.take(
                    if bytes@.len() < RELAY_PAYLOAD_MAX { bytes@.len() as int } else { RELAY_PAYLOAD_MAX as int },
                )),
            Inbound::TunnelEvt { peer, bytes } => old(link).spec_peer() == Some(peer) ==> {
                &&& bytes@.len() <= RELAY_PAYLOAD_MAX ==> (a matches InboundAction::Forward(BoardToHost::FromPeer { source, payload })
                    && source == BoardKind::Controller && relay_bytes(payload) == bytes@)
                &&& bytes@.len() > RELAY_PAYLOAD_MAX ==> a is Ignored
            },
            Inbound::PairAck { .. } => true,
        },
        old(link).spec_peer() is None && !(inbound is Control) ==> a is Ignored,
{
    match inbound {
        Inbound::Control(rc) => {
            if let Some(peer) = link.paired_peer() {
                if !same_mac(&peer, &rc.meta.peer_mac) {
                    return InboundAction::Ignored;
                }
            }
            InboundAction::Control(handle_control(link, watchdog, s, rc))
        },
        Inbound::TunnelCmd { peer, bytes } => match accept_tunnel_cmd(link, &peer, bytes) {
            Some(cmd) => InboundAction::RunCommand(cmd),
            None => InboundAction::Ignored,
        },
        Inbound::TunnelEvt { peer, bytes } => match relay_peer_telemetry(link, &peer, bytes, BoardKind::Controller) {
            Some(msg) => InboundAction::Forward(msg),
            None => InboundAction::Ignored,
        },
        Inbound::PairAck { .. } => InboundAction::Ignored,
    }
}

/// The host-protocol form of a link state.
pub open spec fn link_state_kind_of(state: LinkState) -> LinkStateKind {
    match state {
        LinkState::AwaitingFirstPacket => LinkStateKind::AwaitingFirstPacket,
        LinkState::Alive => LinkStateKind::Alive,
        LinkState::TimedOut => LinkStateKind::TimedOut,
    }
}

/// The motor command a link-state step calls for: none while the state
/// holds; on a change, enable for a live link, brake (bridges left enabled)
/// for a timed-out one.
pub open spec fn link_motor(prev: LinkState, now: LinkState) -> Option<MotorCommand> {
    if now == prev {
        None
    } else {
        match now {
            LinkState::Alive => Some(MotorCommand::Enable),
            LinkState::TimedOut => Some(MotorCommand::Brake),
            LinkState::AwaitingFirstPacket => None,
        }
    }
}

/// The motor commands of the link supervision over ticks at `times`, with no
/// control packet arriving after the one at `last`, starting from state `prev`.
pub open spec fn supervision_motor(timeout_ms: u64, last: Option<u64>, prev: LinkState, times: Seq<u64>)
    -> Seq<Option<MotorCommand>>
    decreases times.len(),
{
    if times.len() == 0 {
        Seq::empty()
    } else {
        let now = link_state_at(timeout_ms, last, times[0]);
        seq![link_motor(prev, now)] + supervision_motor(timeout_ms, last, now, times.skip(1))
    }
}

proof fn lemma_timed_out_ticks_are_quiet(timeout_ms: u64, last: Option<u64>, times: Seq<u64>)
    requires
        forall|j: int| 0 <= j < times.len() ==> link_state_at(timeout_ms, last, #[trigger] times[j]) == LinkState::TimedOut,
    ensures
        supervision_motor(timeout_ms, last, LinkState::TimedOut, times).len() == times.len(),
        forall|j: int| 0 <= j < times.len()
            ==> #[trigger] supervision_motor(timeout_ms, last, LinkState::TimedOut, times)[j] is None,
    decreases times.len(),
{
    lemma_supervision_len(timeout_ms, last, LinkState::TimedOut, times);
    if times.len() > 0 {
        let rest = times.skip(1);
        assert forall|j: int| 0 <= j < rest.len()
            implies link_state_at(timeout_ms, last, #[trigger] rest[j]) == LinkState::TimedOut by {
            assert(rest[j] == times[j + 1]);
        }
        lemma_timed_out_ticks_are_quiet(timeout_ms, last, rest);
        assert(link_state_at(timeout_ms, last, times[0]) == LinkState::TimedOut);
        let all = supervision_motor(timeout_ms, last, LinkState::TimedOut, times);
        assert forall|j: int| 0 <= j < times.len() implies #[trigger] all[j] is None by {
            if j > 0 {
                assert(all[j] == supervision_motor(timeout_ms, last, LinkState::TimedOut, rest)[j - 1]);
            }
        }
    }
}

/// The fail-safe across ticks, from any state short of a timeout: while no
/// control packet arrives after `last` (if any), the supervision commands
/// nothing while the state holds, brakes in exactly the first tick at which
/// the watchdog reports a timeout, and commands nothing in every later tick.
pub proof fn lemma_fail_safe_brakes_once_from(
    timeout_ms: u64,
    last: Option<u64>,
    start: LinkState,
    times: Seq<u64>,
    k: int,
)
    requires
        0 <= k < times.len(),
        start != LinkState::TimedOut,
        forall|i: int, j: int| 0 <= i <= j < times.len() ==> #[trigger] times[i] <= #[trigger] times[j],
        forall|j: int| 0 <= j < k ==> link_state_at(timeout_ms, last, #[trigger] times[j]) == start,
        link_state_at(timeout_ms, last, times[k]) == LinkState::TimedOut,
    ensures
        supervision_motor(timeout_ms, last, start, times).len() == times.len(),
        forall|j: int| 0 <= j < times.len() ==> #[trigger] supervision_motor(timeout_ms, last, start, times)[j]
            == if j == k { Some(MotorCommand::Brake) } else { None },
    decreases times.len(),
{
    let all = supervision_motor(timeout_ms, last, start, times);
    let rest = times.skip(1);
    lemma_supervision_len(timeout_ms, last, start, times);
    if k == 0 {
        assert forall|j: int| 0 <= j < rest.len()
            implies link_state_at(timeout_ms, last, #[trigger] rest[j]) == LinkState::TimedOut by {
            assert(rest[j] == times[j + 1]);
            assert(times[0] <= times[j + 1]);
            crate::keepalive::lemma_timeout_persists(timeout_ms, last, times[0], times[j + 1]);
        }
        lemma_timed_out_ticks_are_quiet(timeout_ms, last, rest);
        assert forall|j: int| 0 <= j < times.len() implies #[trigger] all[j]
            == if j == k { Some(MotorCommand::Brake) } else { None } by {
            if j > 0 {
                assert(all[j] == supervision_motor(timeout_ms, last, LinkState::TimedOut, rest)[j - 1]);
            }
        }
    } else {
        assert forall|i: int, j: int| 0 <= i <= j < rest.len() implies #[trigger] rest[i] <= #[trigger] rest[j] by {
            assert(rest[i] == times[i + 1] && rest[j] == times[j + 1]);
        }
        assert forall|j: int| 0 <= j < k - 1 implies link_state_at(timeout_ms, last, #[trigger] rest[j]) == start by {
            assert(rest[j] == times[j + 1]);
        }
        assert(rest[k - 1] == times[k]);
        assert(link_state_at(timeout_ms, last, times[0]) == start);
        lemma_fail_safe_brakes_once_from(timeout_ms, last, start, rest, k - 1);
        assert forall|j: int| 0 <= j < times.len() implies #[trigger] all[j]
            == if j == k { Some(MotorCommand::Brake) } else { None } by {
            if j > 0 {
                assert(all[j] == supervision_motor(timeout_ms, last, start, rest)[j - 1]);
            }
        }
    }
}

/// The fail-safe across ticks after a packet: while a live link gets no
/// further control packet after the one at `last`, the supervision commands
/// nothing until the first tick more than the timeout after `last`, brakes in
/// exactly that tick, and commands nothing in every later tick.
pub proof fn lemma_fail_safe_brakes_once(timeout_ms: u64, last: u64, times: Seq<u64>, k: int)
    requires
        0 <= k < times.len(),
        forall|i: int, j: int| 0 <= i <= j < times.len() ==> #[trigger] times[i] <= #[trigger] times[j],
        forall|j: int| 0 <= j < k ==> last <= #[trigger] times[j] <= last + timeout_ms,
        times[k] > last + timeout_ms,
    ensures
        supervision_motor(timeout_ms, Some(last), LinkState::Alive, times).len() == times.len(),
        forall|j: int| 0 <= j < times.len() ==> #[trigger] supervision_motor(timeout_ms, Some(last), LinkState::Alive, times)[j]
            == if j == k { Some(MotorCommand::Brake) } else { None },
{
    assert forall|j: int| 0 <= j < k
        implies link_state_at(timeout_ms, Some(last), #[trigger] times[j]) == LinkState::Alive by {}
    lemma_fail_safe_brakes_once_from(timeout_ms, Some(last), LinkState::Alive, times, k);
}

/// The fail-safe across ticks when no control packet has arrived since boot:
/// the supervision commands nothing while the start-up grace period lasts,
/// brakes in exactly the first tick after it, and commands nothing in every
/// later tick.
pub proof fn lemma_fail_safe_brakes_once_from_boot(timeout_ms: u64, times: Seq<u64>, k: int)
    requires
        0 <= k < times.len(),
        forall|i: int, j: int| 0 <= i <= j < times.len() ==> #[trigger] times[i] <= #[trigger] times[j],
        forall|j: int| 0 <= j < k ==> #[trigger] times[j] <= timeout_ms,
        times[k] > timeout_ms,
    ensures
        supervision_motor(timeout_ms, None, LinkState::AwaitingFirstPacket, times).len() == times.len(),
        forall|j: int| 0 <= j < times.len()
            ==> #[trigger] supervision_motor(timeout_ms, None, LinkState::AwaitingFirstPacket, times)[j]
            == if j == k { Some(MotorCommand::Brake) } else { None },
{
    assert forall|j: int| 0 <= j < k
        implies link_state_at(timeout_ms, None, #[trigger] times[j]) == LinkState::AwaitingFirstPacket by {}
    lemma_fail_safe_brakes_once_from(timeout_ms, None, LinkState::AwaitingFirstPacket, times, k);
}

proof fn lemma_supervision_len(timeout_ms: u64, last: Option<u64>, prev: LinkState, times: Seq<u64>)
    ensures
        supervision_motor(timeout_ms, last, prev, times).len() == times.len(),
    decreases times.len(),
{
    if times.len() > 0 {
        lemma_supervision_len(timeout_ms, last, link_state_at(timeout_ms, last, times[0]), times.skip(1));
    }
}

/// What the vehicle does when the link state changes.
pub struct LinkChange {
    /// The new state.
    pub state: LinkState,
    /// Telemetry announcing the new state (none when the state held).
    pub event: Option<BoardToHost>,
    pub motor: Option<MotorCommand>,
    /// Blink the LED to greet a live link.
    pub blink: bool,
}

/// Evaluate the watchdog at the current time and react to a state change: a
/// live link re-enables the H-bridges; a timed-out link resets sequence
/// tracking and brakes (bridges left enabled, so a USB override still works).
pub fn link_state_tick<T: EspNowTransport>(
    link: &mut EspNowLink<T>,
    watchdog: &LinkWatchdog,
    s: &mut VehicleRunState,
) -> (c: LinkChange)
    ensures
        c.state == watchdog.state_at(old(s).elapsed_ms),
        final(s).last_state == c.state,
        c.motor == link_motor(old(s).last_state, c.state),
        final(link).spec_peer() == old(link).spec_peer(),
        final(link).spec_transport() == old(link).spec_transport(),
        c.state == old(s).last_state ==> {
            &&& c.event is None && c.motor is None && !c.blink
            &&& *final(s) == *old(s)
            &&& *final(link) == *old(link)
        },
        c.state != old(s).last_state ==> {
            &&& c.event == Some(BoardToHost::EspNowLinkState(link_state_kind_of(c.state)))
            &&& c.blink == (c.state == LinkState::Alive)
            &&& c.motor == match c.state {
                LinkState::Alive => Some(MotorCommand::Enable),
                LinkState::TimedOut => Some(MotorCommand::Brake),
                LinkState::AwaitingFirstPacket => None::<MotorCommand>,
            }
            &&& final(link).spec_last_sequence() == if c.state == LinkState::TimedOut {
                None::<u16>
            } else {
                old(link).spec_last_sequence()
            }
            &&& *final(s) == (VehicleRunState {
                last_state: c.state,
                last_duty: if c.state == LinkState::TimedOut { 0 } else { old(s).last_duty },
                ..*old(s)
            })
        },
{
    let state = watchdog.state(s.elapsed_ms);
    if state == s.last_state {
        return LinkChange { state, event: None, motor: None, blink: false };
    }
    let (kind, motor, blink) = match state {
        LinkState::AwaitingFirstPacket => (LinkStateKind::AwaitingFirstPacket, None, false),
        LinkState::Alive => (LinkStateKind::Alive, Some(MotorCommand::Enable), true),
        LinkState::TimedOut => {
            link.reset_sequence();
            s.last_duty = 0;
            (LinkStateKind::TimedOut, Some(MotorCommand::Brake), false)
        },
    };
    s.last_state = state;
    LinkChange { state, event: Some(BoardToHost::EspNowLinkState(kind)), motor, blink }
}

/// The duty a manual override of `duty` applies this tick: the override
/// itself, or one ramp step toward it when manual ramping is on.
pub open spec fn manual_step(s: VehicleRunState, duty: i8) -> int {
    if s.manual_ramp { ramp_toward(s.last_duty as int, duty as int) } else { duty as int }
}

/// Re-assert a latched USB manual override every tick, so control-packet
/// handling and the timeout brake cannot leave it at zero. With manual
/// ramping on, the override is approached one ramp step per tick.
pub fn hold_manual_pwm(s: &mut VehicleRunState) -> (m: Option<MotorCommand>)
    ensures
        old(s).manual_pwm is None ==> m is None && *final(s) == *old(s),
        old(s).manual_pwm matches Some(p) ==> m == Some(MotorCommand::SetPwm(manual_step(*old(s), p) as i8))
            && *final(s) == (VehicleRunState { last_duty: manual_step(*old(s), p) as i16, ..*old(s) }),
{
    match s.manual_pwm {
        Some(pwm) => {
            let duty: i16 = if s.manual_ramp { ramp_duty(s.last_duty, pwm as i16) } else { pwm as i16 };
            s.last_duty = duty;
            Some(MotorCommand::SetPwm(duty as i8))
        },
        None => None,
    }
}

/// Current sense is sampled every this many ticks (about 200 ms), so the
/// readings flood neither the loop nor the USB event queue.
pub const CURRENT_SENSE_EVERY_TICKS: u64 = 4;

/// Start a loop iteration: count the tick (wrapping) and say whether this
/// tick samples current sense.
pub fn begin_tick(s: &mut VehicleRunState) -> (sample_current: bool)
    ensures
        final(s).tick == (if old(s).tick == u64::MAX { 0 } else { old(s).tick + 1 }),
        *final(s) == (VehicleRunState { tick: final(s).tick, ..*old(s) }),
        sample_current == (final(s).tick % CURRENT_SENSE_EVERY_TICKS == 0),
{
    s.tick = s.tick.wrapping_add(1);
    s.tick % CURRENT_SENSE_EVERY_TICKS == 0
}

/// End a loop iteration: one loop period has passed (saturating).
pub fn end_tick(s: &mut VehicleRunState)
    ensures
        final(s).elapsed_ms == (if old(s).elapsed_ms + VEHICLE_LOOP_INTERVAL_MS > u64::MAX {
            u64::MAX as int
        } else {
            old(s).elapsed_ms + VEHICLE_LOOP_INTERVAL_MS
        }),
        *final(s) == (VehicleRunState { elapsed_ms: final(s).elapsed_ms, ..*old(s) }),
{
    s.elapsed_ms = s.elapsed_ms.saturating_add(VEHICLE_LOOP_INTERVAL_MS);
}

/// Whether telemetry is also mirrored to the peer over the tunnel: streaming
/// was switched on and a peer is paired.
pub fn mirror_to_peer<T: EspNowTransport>(s: &VehicleRunState, link: &EspNowLink<T>) -> (b: bool)
    ensures
        b == (s.stream_to_peer && link.spec_peer() is Some),
{
    s.stream_to_peer && link.is_paired()
}

/// The LED colour of a live link: by the last watched button — A amber, B
/// white, C red, D blue — and green when none was pressed.
pub open spec fn alive_color(last_button: u8) -> (u8, u8, u8) {
    if last_button & 4u8 != 0 {
        (16, 12, 0)
    } else if last_button & 8u8 != 0 {
        (16, 16, 16)
    } else if last_button & 2u8 != 0 {
        (16, 0, 0)
    } else if last_button & 16u8 != 0 {
        (0, 0, 16)
    } else {
        (0, 16, 0)
    }
}

/// The LED colour for this tick: a USB override wins; otherwise amber while
/// awaiting the first packet, the button colour while alive, and a red blink
/// (toggled every tick) while timed out.
pub fn led_color(s: &mut VehicleRunState, link_state: LinkState) -> (rgb: (u8, u8, u8))
    ensures
        old(s).led_override matches Some(c) ==> rgb == (c[0], c[1], c[2]) && *final(s) == *old(s),
        old(s).led_override is None ==> match link_state {
            LinkState::AwaitingFirstPacket => rgb == (16u8, 12u8, 0u8) && *final(s) == *old(s),
            LinkState::Alive => rgb == alive_color(old(s).last_button) && *final(s) == *old(s),
            LinkState::TimedOut => rgb == (if old(s).led_toggle { (16u8, 0u8, 0u8) } else { (2u8, 0u8, 0u8) })
                && *final(s) == (VehicleRunState { led_toggle: !old(s).led_toggle, ..*old(s) }),
        },
{
    if let Some(c) = s.led_override {
        return (c[0], c[1], c[2]);
    }
    match link_state {
        LinkState::AwaitingFirstPacket => (16, 12, 0),
        LinkState::Alive => {
            if s.last_button & ControlPacket::BUTTON_A != 0 {
                (16, 12, 0)
            } else if s.last_button & ControlPacket::BUTTON_B != 0 {
                (16, 16, 16)
            } else if s.last_button & ControlPacket::BUTTON_C != 0 {
                (16, 0, 0)
            } else if s.last_button & ControlPacket::BUTTON_D != 0 {
                (0, 0, 16)
            } else {
                (0, 16, 0)
            }
        },
        LinkState::TimedOut => {
            let blink = s.led_toggle;
            s.led_toggle = !s.led_toggle;
            if blink { (16, 0, 0) } else { (2, 0, 0) }
        },
    }
}

/// What the vehicle does with one host-protocol command.
pub struct CommandOutcome {
    /// Acknowledge an LED override directly to USB.
    pub led_ack: bool,
    pub motor: Vec<MotorCommand>,
    /// Telemetry to emit (mirrored to the peer when streaming).
    pub telemetry: Option<BoardToHost>,
    /// Erase the persisted pairing record.
    pub clear_pairing_store: bool,
}

/// Apply a host-protocol command, whether it arrived over USB or over the
/// ESP-NOW tunnel; both paths are handled identically.
pub fn apply_local_cmd<T: EspNowTransport>(
    cmd: HostToBoard,
    s: &mut VehicleRunState,
    link: &mut EspNowLink<T>,
) -> (o: CommandOutcome)
    ensures
        match cmd {
            HostToBoard::SetLed(color) => {
                &&& o.led_ack && o.motor@.len() == 0 && o.telemetry is None && !o.clear_pairing_store
                &&& *final(s) == (VehicleRunState { led_override: color, ..*old(s) })
                &&& *final(link) == *old(link)
            },
            HostToBoard::SetMotorEnable { r_en, l_en } => {
                &&& !o.led_ack && o.telemetry is None && !o.clear_pairing_store
                &&& o.motor@ == seq![MotorCommand::SetEnables { r_en, l_en }]
                &&& *final(s) == *old(s)
                &&& *final(link) == *old(link)
            },
            HostToBoard::SetMotorPwm { duty } => {
                let applied = manual_step(*old(s), duty);
                &&& !o.led_ack && !o.clear_pairing_store
                &&& o.motor@ == seq![MotorCommand::SetPwm(applied as i8)]
                &&& o.telemetry == Some(BoardToHost::MotorState { duty: applied as i16 })
                &&& *final(s) == (VehicleRunState { manual_pwm: Some(duty), last_duty: applied as i16, ..*old(s) })
                &&& *final(link) == *old(link)
            },
            HostToBoard::SetManualPwmRamp { on } => {
                &&& !o.led_ack && o.motor@.len() == 0 && o.telemetry is None && !o.clear_pairing_store
                &&& *final(s) == (VehicleRunState { manual_ramp: on, ..*old(s) })
                &&& *final(link) == *old(link)
            },
            HostToBoard::EnableRemoteTelemetry { on } => {
                &&& !o.led_ack && o.motor@.len() == 0 && o.telemetry is None && !o.clear_pairing_store
                &&& *final(s) == (VehicleRunState { stream_to_peer: on, ..*old(s) })
                &&& *final(link) == *old(link)
            },
            HostToBoard::Repair => {
                &&& !o.led_ack && o.motor@.len() == 0 && o.telemetry is None && o.clear_pairing_store
                &&& *final(s) == *old(s)
                &&& final(link).spec_peer() is None
                &&& final(link).spec_last_sequence() is None
                &&& final(link).spec_transport() == old(link).spec_transport()
            },
            HostToBoard::ForPeer(payload) => {
                &&& !o.led_ack && o.motor@.len() == 0 && o.telemetry is None && !o.clear_pairing_store
                &&& *final(s) == *old(s)
                &&& final(link).spec_peer() == old(link).spec_peer()
                &&& final(link).spec_last_sequence() == old(link).spec_last_sequence()
                &&& final(link).spec_transport().peers() == old(link).spec_transport().peers()
                &&& final(link).spec_sent() == (if old(link).spec_peer() is Some {
                    old(link).spec_sent().push((frame_bytes(FrameKind::TunnelCmd, relay_bytes(payload)), old(link).spec_peer()->0))
                } else {
                    old(link).spec_sent()
                })
            },
            _ => {
                &&& !o.led_ack && o.motor@.len() == 0 && o.telemetry is None && !o.clear_pairing_store
                &&& *final(s) == *old(s)
                &&& *final(link) == *old(link)
            },
        },
{
    let mut o = CommandOutcome { led_ack: false, motor: Vec::new(), telemetry: None, clear_pairing_store: false };
    match cmd {
        HostToBoard::SetLed(color) => {
            s.led_override = color;
            o.led_ack = true;
        },
        HostToBoard::SetMotorEnable { r_en, l_en } => {
            o.motor.push(MotorCommand::SetEnables { r_en, l_en });
        },
        HostToBoard::SetMotorPwm { duty } => {
            let applied: i16 = if s.manual_ramp { ramp_duty(s.last_duty, duty as i16) } else { duty as i16 };
            s.manual_pwm = Some(duty);
            o.motor.push(MotorCommand::SetPwm(applied as i8));
            s.last_duty = applied;
            o.telemetry = Some(BoardToHost::MotorState { duty: applied });
        },
        HostToBoard::SetManualPwmRamp { on } => {
            s.manual_ramp = on;
        },
        HostToBoard::EnableRemoteTelemetry { on } => {
            s.stream_to_peer = on;
        },
        HostToBoard::Repair => {
            o.clear_pairing_store = true;
            link.reset_pairing();
        },
        HostToBoard::ForPeer(payload) => {
            let bytes = relay_as_slice(&payload);
            let _ = link.send_tunnel_cmd(bytes);
        },
        _ => {},
    }
    o
}

} // verus!
