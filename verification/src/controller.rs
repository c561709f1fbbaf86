//! The controller's loop decisions: when to transmit a control packet and
//! what it carries, host-command handling, and the status LED.
//!
//! The firmware loop samples the joystick every 10 ms, drains the radio, and
//! hands each outcome to these functions, which return what to send and emit.
use vstd::prelude::*;
use crate::espnow::{EspNowLink, EspNowTransport};
use crate::frame::{frame_bytes, FrameKind};
use crate::host_proto::{
    relay_as_slice, relay_bytes, BoardKind, BoardToHost, HostError, HostToBoard, PROTOCOL_VERSION,
};
use crate::joystick::{
    button_bits, encode_buttons, neutral_joystick_state, neutral_state, same_state, JoystickState,
};
use crate::protocol::{newer_sequence, ControlPacket, CONTROL_TX_INTERVAL_MS};

verus! {

/// Control-loop tick period.
pub const LOOP_TICK_MS: u64 = 10;
/// Minimum spacing between joystick status log lines.
pub const STATUS_LOG_INTERVAL_MS: u64 = 250;
/// Consecutive joystick read failures before sending a neutral keepalive.
pub const READ_FAILURES_BEFORE_NEUTRAL_KEEPALIVE: u8 = 3;
/// Print one error line every this many consecutive joystick read failures.
pub const ERROR_LOG_PERIOD: u8 = 10;
/// Max ESP-NOW frames drained per tick (pairing acks + tunnel frames).
pub const MAX_RX_DRAIN_PER_TICK: usize = 8;

/// Loop state of the controller.
#[derive(Copy, Clone, Debug, PartialEq, Eq)]
pub struct ControllerRunState {
    pub tx_seq: u16,
    pub last_sampled_state: Option<JoystickState>,
    pub last_transmitted_state: Option<JoystickState>,
    pub ticks_since_tx: u64,
    pub consecutive_read_failures: u8,
    pub ticks_since_status_log: u64,
    /// LED override from the USB host: `None` = automatic colour.
    pub led_override: Option<[u8; 3]>,
    /// Whether this board mirrors its telemetry to the peer over the tunnel.
    pub stream_to_peer: bool,
    pub led_toggle: bool,
}

/// The state the loop starts in: both intervals already elapsed, so the
/// first tick sends a keepalive immediately.
pub open spec fn initial_controller_state() -> ControllerRunState {
    ControllerRunState {
        tx_seq: 0,
        last_sampled_state: None,
        last_transmitted_state: None,
        ticks_since_tx: CONTROL_TX_INTERVAL_MS,
        consecutive_read_failures: 0,
        ticks_since_status_log: STATUS_LOG_INTERVAL_MS,
        led_override: None,
        stream_to_peer: false,
        led_toggle: false,
    }
}

impl ControllerRunState {
    pub fn new() -> (s: Self)
        ensures
            s == initial_controller_state(),
    {
        ControllerRunState {
            tx_seq: 0,
            last_sampled_state: None,
            last_transmitted_state: None,
            ticks_since_tx: CONTROL_TX_INTERVAL_MS,
            consecutive_read_failures: 0,
            ticks_since_status_log: STATUS_LOG_INTERVAL_MS,
            led_override: None,
            stream_to_peer: false,
            led_toggle: false,
        }
    }
}

/// Why a control packet is sent.
#[derive(Copy, Clone, Debug, PartialEq, Eq, Structural)]
pub enum TxReason {
    /// The joystick reading changed, or the stick is off centre.
    Change,
    /// Periodic keepalive with the last sampled reading.
    Keepalive,
    /// Periodic keepalive while the joystick cannot be read: neutral reading.
    KeepaliveNeutral,
}

/// What one controller tick decided.
pub struct ControllerTick {
    /// Joystick telemetry for the host (on change).
    pub telemetry: Option<BoardToHost>,
    /// Print a joystick status line.
    pub log_status: bool,
    /// The control packet to send, and why.
    pub tx: Option<(TxReason, ControlPacket)>,
}

/// A sample counts as a change when it differs from the last sample, or
/// whenever the stick is off centre.
pub open spec fn sample_changed(last: Option<JoystickState>, st: JoystickState) -> bool {
    last != Some(st) || st.x != 128 || st.y != 128
}

/// The reading to transmit this tick, if any: a changed sample; otherwise,
/// once the keepalive interval has run, the neutral reading after repeated
/// read failures or else the last sample (neutral if there is none).
pub open spec fn tx_choice(
    changed: Option<JoystickState>,
    ticks_since_tx: u64,
    failures: u8,
    last_sampled: Option<JoystickState>,
) -> Option<(TxReason, JoystickState)> {
    if changed is Some {
        Some((TxReason::Change, changed->0))
    } else if ticks_since_tx >= CONTROL_TX_INTERVAL_MS {
        if failures >= READ_FAILURES_BEFORE_NEUTRAL_KEEPALIVE {
            Some((TxReason::KeepaliveNeutral, neutral_state()))
        } else {
            Some((TxReason::Keepalive, match last_sampled { Some(st) => st, None => neutral_state() }))
        }
    } else {
        None
    }
}

/// The sequence number after `seq`, wrapping from 65535 to 0.
pub open spec fn next_sequence(seq: u16) -> u16 {
    if seq == 65535 { 0u16 } else { (seq + 1) as u16 }
}

/// Each packet the controller sends is fresh to the vehicle's sequence check
/// relative to the packet sent before it, across the 65535 -> 0 wrap too.
pub proof fn lemma_next_sequence_is_fresh(seq: u16)
    ensures
        newer_sequence(seq, next_sequence(seq)),
{
}

/// A control packet carries the reading it was built from: its X and Y are
/// the reading's axes (X stays X, Y stays Y), each button is set in the bit
/// the protocol assigns it (JOY bit 0, C bit 1, A bit 2, B bit 3, D bit 4)
/// and no other bit is set, the reserved bytes are zero, and it carries the
/// given sequence number.
pub proof fn lemma_packet_carries_reading(seq: u16, st: JoystickState)
    ensures
        packet_for(seq, st).sequence == seq,
        packet_for(seq, st).x == st.x,
        packet_for(seq, st).y == st.y,
        packet_for(seq, st).reserved == [0u8, 0u8, 0u8],
        (packet_for(seq, st).buttons & 1u8 != 0) == st.buttons.joy,
        (packet_for(seq, st).buttons & 2u8 != 0) == st.buttons.c,
        (packet_for(seq, st).buttons & 4u8 != 0) == st.buttons.a,
        (packet_for(seq, st).buttons & 8u8 != 0) == st.buttons.b,
        (packet_for(seq, st).buttons & 16u8 != 0) == st.buttons.d,
        packet_for(seq, st).buttons < 32,
{
    crate::joystick::lemma_button_bits_decode(st.buttons);
}

/// The packet that carries a reading with the given sequence number.
pub open spec fn packet_for(seq: u16, st: JoystickState) -> ControlPacket {
    ControlPacket { sequence: seq, x: st.x, y: st.y, buttons: button_bits(st.buttons), reserved: [0u8, 0u8, 0u8] }
}

/// One controller tick after the joystick read: `sample` is the reading, or
/// `None` when the read failed or timed out.
pub fn controller_tick(s: &mut ControllerRunState, sample: Option<JoystickState>) -> (t: ControllerTick)
    ensures
        ({
            let failures = match sample {
                Some(_) => 0u8,
                None => if old(s).consecutive_read_failures == 255 { 255u8 } else { (old(s).consecutive_read_failures + 1) as u8 },
            };
            let last_sampled = match sample {
                Some(st) => Some(st),
                None => old(s).last_sampled_state,
            };
            let changed = match sample {
                Some(st) => if sample_changed(old(s).last_sampled_state, st) { Some(st) } else { None },
                None => None,
            };
            let log = changed is Some && old(s).ticks_since_status_log >= STATUS_LOG_INTERVAL_MS;
            let choice = tx_choice(changed, old(s).ticks_since_tx, failures, last_sampled);
            &&& final(s).consecutive_read_failures == failures
            &&& final(s).last_sampled_state == last_sampled
            &&& t.telemetry == match changed {
                Some(st) => Some(BoardToHost::JoystickState { x: st.x, y: st.y, buttons: button_bits(st.buttons) }),
                None => None,
            }
            &&& t.log_status == log
            &&& final(s).ticks_since_status_log == if log { 0 } else { old(s).ticks_since_status_log }
            &&& match choice {
                Some((reason, st)) => {
                    let seq = next_sequence(old(s).tx_seq);
                    &&& t.tx == Some((reason, packet_for(seq, st)))
                    &&& final(s).tx_seq == seq
                    &&& final(s).last_transmitted_state == Some(st)
                    &&& final(s).ticks_since_tx == 0
                },
                None => {
                    &&& t.tx is None
                    &&& final(s).tx_seq == old(s).tx_seq
                    &&& final(s).last_transmitted_state == old(s).last_transmitted_state
                    &&& final(s).ticks_since_tx == old(s).ticks_since_tx
                },
            }
            &&& final(s).led_override == old(s).led_override
            &&& final(s).stream_to_peer == old(s).stream_to_peer
            &&& final(s).led_toggle == old(s).led_toggle
        }),
        t.tx matches Some((_, p)) ==> (final(s).last_transmitted_state matches Some(st)
            && p.x == st.x && p.y == st.y
            && p.reserved == [0u8, 0u8, 0u8]
            && (p.buttons & 1u8 != 0) == st.buttons.joy
            && (p.buttons & 2u8 != 0) == st.buttons.c
            && (p.buttons & 4u8 != 0) == st.buttons.a
            && (p.buttons & 8u8 != 0) == st.buttons.b
            && (p.buttons & 16u8 != 0) == st.buttons.d
            && p.buttons < 32
            && p.sequence == final(s).tx_seq
            && newer_sequence(old(s).tx_seq, p.sequence)),
        t.tx matches Some((TxReason::Change, p)) ==> (sample matches Some(r) && p.x == r.x && p.y == r.y),
        sample matches Some(st) ==> ((st.x != 128 || st.y != 128)
            ==> (t.tx matches Some((TxReason::Change, p)) && p.x == st.x && p.y == st.y)),
        old(s).ticks_since_tx >= 100 ==> t.tx is Some,
        sample is None && old(s).ticks_since_tx < 100 ==> t.tx is None,
        sample is None && old(s).ticks_since_tx >= 100 && old(s).consecutive_read_failures >= 2
            ==> (t.tx matches Some((TxReason::KeepaliveNeutral, p)) && p.x == 128 && p.y == 128 && p.buttons == 0),
{
    let mut telemetry = None;
    let mut log_status = false;
    let mut changed_state: Option<JoystickState> = None;
    match sample {
        Some(state) => {
            let same = match s.last_sampled_state {
                Some(last) => same_state(&last, &state),
                None => false,
            };
            let joystick_active = state.x != 128 || state.y != 128;
            let changed = !same || joystick_active;
            s.consecutive_read_failures = 0;
            if changed {
                changed_state = Some(state);
                let button_mask = encode_buttons(&state.buttons);
                telemetry = Some(BoardToHost::JoystickState { x: state.x, y: state.y, buttons: button_mask });
            }
            s.last_sampled_state = Some(state);
            if changed && s.ticks_since_status_log >= STATUS_LOG_INTERVAL_MS {
                log_status = true;
                s.ticks_since_status_log = 0;
            }
        },
        None => {
            s.consecutive_read_failures = s.consecutive_read_failures.saturating_add(1);
        },
    }

    let choice: Option<(TxReason, JoystickState)> = match changed_state {
        Some(state) => Some((TxReason::Change, state)),
        None => {
            if s.ticks_since_tx >= CONTROL_TX_INTERVAL_MS {
                if s.consecutive_read_failures >= READ_FAILURES_BEFORE_NEUTRAL_KEEPALIVE {
                    Some((TxReason::KeepaliveNeutral, neutral_joystick_state()))
                } else {
                    let st = match s.last_sampled_state {
                        Some(st) => st,
                        None => neutral_joystick_state(),
                    };
                    Some((TxReason::Keepalive, st))
                }
            } else {
                None
            }
        },
    };

    let tx = match choice {
        Some((reason, state)) => {
            s.tx_seq = s.tx_seq.wrapping_add(1);
            let button_mask = encode_buttons(&state.buttons);
            let packet = ControlPacket::new(s.tx_seq, state.x, state.y, button_mask);
            proof {
                assert(0u8 | 0u8 | 0u8 | 0u8 | 0u8 == 0u8) by (bit_vector);
                assert(button_bits(neutral_state().buttons) == 0);
                lemma_packet_carries_reading(s.tx_seq, state);
                lemma_next_sequence_is_fresh(old(s).tx_seq);
            }
            s.last_transmitted_state = Some(state);
            s.ticks_since_tx = 0;
            Some((reason, packet))
        },
        None => None,
    };
    ControllerTick { telemetry, log_status, tx }
}

/// Advance the loop clocks by one tick (saturating).
pub fn advance_clock(s: &mut ControllerRunState)
    ensures
        final(s).ticks_since_tx == if old(s).ticks_since_tx + LOOP_TICK_MS > u64::MAX { u64::MAX as int } else { old(s).ticks_since_tx + LOOP_TICK_MS },
        final(s).ticks_since_status_log == if old(s).ticks_since_status_log + LOOP_TICK_MS > u64::MAX { u64::MAX as int } else { old(s).ticks_since_status_log + LOOP_TICK_MS },
        *final(s) == (ControllerRunState {
            ticks_since_tx: final(s).ticks_since_tx,
            ticks_since_status_log: final(s).ticks_since_status_log,
            ..*old(s)
        }),
{
    s.ticks_since_tx = s.ticks_since_tx.saturating_add(LOOP_TICK_MS);
    s.ticks_since_status_log = s.ticks_since_status_log.saturating_add(LOOP_TICK_MS);
}

/// Whether a joystick read failure is logged: the first of a run, then every
/// [`ERROR_LOG_PERIOD`]-th.
pub fn should_log_read_failure(consecutive_failures: u8) -> (b: bool)
    ensures
        b == (consecutive_failures == 1 || consecutive_failures % ERROR_LOG_PERIOD == 0),
{
    consecutive_failures == 1 || consecutive_failures % ERROR_LOG_PERIOD == 0
}

/// The status LED colour for this tick: the USB override if set, otherwise
/// alternating blue and red each tick. The toggle advances every tick.
pub fn led_color(s: &mut ControllerRunState) -> (rgb: (u8, u8, u8))
    ensures
        rgb == match old(s).led_override {
            Some(c) => (c[0], c[1], c[2]),
            None => if old(s).led_toggle { (0u8, 0u8, 16u8) } else { (16u8, 0u8, 0u8) },
        },
        *final(s) == (ControllerRunState { led_toggle: !old(s).led_toggle, ..*old(s) }),
{
    let color = if let Some(c) = s.led_override {
        (c[0], c[1], c[2])
    } else if s.led_toggle {
        (0, 0, 16)
    } else {
        (16, 0, 0)
    };
    s.led_toggle = !s.led_toggle;
    color
}

/// What the controller does with one host-protocol command.
pub struct CommandOutcome {
    /// Acknowledge an LED override directly to USB.
    pub led_ack: bool,
    /// Erase the persisted pairing record.
    pub clear_pairing_store: bool,
}

/// Apply a host-protocol command, whether it arrived over USB or over the
/// ESP-NOW tunnel; both paths are handled identically.
pub fn apply_local_cmd<T: EspNowTransport>(
    cmd: HostToBoard,
    s: &mut ControllerRunState,
    link: &mut EspNowLink<T>,
) -> (o: CommandOutcome)
    ensures
        match cmd {
            HostToBoard::SetLed(color) => {
                &&& o.led_ack && !o.clear_pairing_store
                &&& *final(s) == (ControllerRunState { led_override: color, ..*old(s) })
                &&& *final(link) == *old(link)
            },
            HostToBoard::EnableRemoteTelemetry { on } => {
                &&& !o.led_ack && !o.clear_pairing_store
                &&& *final(s) == (ControllerRunState { stream_to_peer: on, ..*old(s) })
                &&& *final(link) == *old(link)
            },
            HostToBoard::Repair => {
                &&& !o.led_ack && o.clear_pairing_store
                &&& *final(s) == *old(s)
                &&& final(link).spec_peer() is None
                &&& final(link).spec_last_sequence() is None
                &&& final(link).spec_transport() == old(link).spec_transport()
            },
            HostToBoard::ForPeer(payload) => {
                &&& !o.led_ack && !o.clear_pairing_store
                &&& *final(s) == *old(s)
                &&& final(link).spec_peer() == old(link).spec_peer()
                &&& final(link).spec_last_sequence() == old(link).spec_last_sequence()
                &&& final(link).spec_transport().peers() == old(link).spec_transport().peers()
                &&& final(link).spec_sent() == (if old(link).spec_peer() is Some {
                    old(link).spec_sent().push((frame_bytes(FrameKind::TunnelCmd, relay_bytes(payload)), old(link).spec_peer()->0))
                } else {
                    old(link).spec_sent()
                })
            },
            _ => {
                &&& !o.led_ack && !o.clear_pairing_store
                &&& *final(s) == *old(s)
                &&& *final(link) == *old(link)
            },
        },
{
    let mut o = CommandOutcome { led_ack: false, clear_pairing_store: false };
    match cmd {
        HostToBoard::SetLed(color) => {
            s.led_override = color;
            o.led_ack = true;
        },
        HostToBoard::EnableRemoteTelemetry { on } => {
            s.stream_to_peer = on;
        },
        HostToBoard::Repair => {
            o.clear_pairing_store = true;
            link.reset_pairing();
        },
        HostToBoard::ForPeer(payload) => {
            let bytes = relay_as_slice(&payload);
            let _ = link.send_tunnel_cmd(bytes);
        },
        _ => {},
    }
    o
}

/// Where a command that arrived on USB goes.
pub enum HostCommandRoute {
    /// Answer the host directly.
    Reply(BoardToHost),
    /// Hand to the main loop, which owns the radio and the pairing store; the
    /// USB task then answers as [`forward_reply`] says.
    Forward(HostToBoard),
}

/// Route a decoded USB command (`None` when the frame did not decode): `Ping`
/// is answered with `Pong`; LED, relay, telemetry-streaming and re-pair
/// commands go to the main loop; anything else is not applicable here.
pub fn route_host_command(decoded: Option<HostToBoard>) -> (r: HostCommandRoute)
    ensures
        match decoded {
            None => r == HostCommandRoute::Reply(BoardToHost::Error(HostError::ParseError)),
            Some(HostToBoard::Ping { version: _ }) => r == HostCommandRoute::Reply(
                BoardToHost::Pong { version: PROTOCOL_VERSION, board: BoardKind::Controller },
            ),
            Some(HostToBoard::SetLed(_)) | Some(HostToBoard::ForPeer(_))
            | Some(HostToBoard::EnableRemoteTelemetry { .. }) | Some(HostToBoard::Repair) =>
                r == HostCommandRoute::Forward(decoded->0),
            Some(_) => r == HostCommandRoute::Reply(BoardToHost::Error(HostError::NotApplicable)),
        },
{
    match decoded {
        None => HostCommandRoute::Reply(BoardToHost::Error(HostError::ParseError)),
        Some(cmd) => match cmd {
            HostToBoard::Ping { version: _ } => HostCommandRoute::Reply(
                BoardToHost::Pong { version: PROTOCOL_VERSION, board: BoardKind::Controller },
            ),
            HostToBoard::SetLed(_) | HostToBoard::ForPeer(_) | HostToBoard::EnableRemoteTelemetry { .. }
            | HostToBoard::Repair => HostCommandRoute::Forward(cmd),
            _ => HostCommandRoute::Reply(BoardToHost::Error(HostError::NotApplicable)),
        },
    }
}

/// The reply to the host after a forwarded command was offered to the main
/// loop's command queue: none when the queue took it, `Busy` when it was full
/// (the host should retry).
pub fn forward_reply(queued: bool) -> (r: Option<BoardToHost>)
    ensures
        r == if queued { None } else { Some(BoardToHost::Error(HostError::Busy)) },
{
    if queued {
        None
    } else {
        Some(BoardToHost::Error(HostError::Busy))
    }
}

} // verus!
