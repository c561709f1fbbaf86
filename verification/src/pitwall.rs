//! The telemetry model behind the host dashboard: per-board live values and
//! short histories, fed by the board→host messages of either board.
//!
//! Times are milliseconds on the host's monotonic clock.
use vstd::prelude::*;
use std::collections::VecDeque;
use crate::host_proto::{BoardKind, BoardToHost, LinkStateKind};

verus! {

/// Samples kept per sparkline history.
pub const HIST_LEN: usize = 120;

/// A board panel is "stale" if nothing arrived within this many milliseconds.
pub const STALE_AFTER_MS: u64 = 1500;

/// Joystick button bit masks of the control packet, with their labels.
pub const BUTTON_JOY: u8 = 1;
pub const BUTTON_C: u8 = 2;
pub const BUTTON_A: u8 = 4;
pub const BUTTON_B: u8 = 8;
pub const BUTTON_D: u8 = 16;

/// Rolling telemetry for a single board.
pub struct BoardTelemetry {
    pub link: Option<LinkStateKind>,
    pub joy_x: Option<u8>,
    pub joy_y: Option<u8>,
    pub buttons: u8,
    pub motor_duty: Option<i16>,
    /// When the last message from this board arrived.
    pub last_seen_ms: Option<u64>,
    pub hist_x: VecDeque<u64>,
    pub hist_y: VecDeque<u64>,
    /// Motor duty shifted into `0..=200` (duty + 100) for a sparkline.
    pub hist_duty: VecDeque<u64>,
    /// Last current-sense readings (mA) of the forward (`R_IS`) and reverse
    /// (`L_IS`) channels.
    pub cur_r_ma: Option<u16>,
    pub cur_l_ma: Option<u16>,
    /// Load current (mA) for a sparkline: the larger channel reading, since
    /// only the channel of the driven direction carries current.
    pub hist_current: VecDeque<u64>,
}

/// A history after appending `v`: the oldest sample is dropped first when
/// the history already holds [`HIST_LEN`] samples.
pub open spec fn hist_push(h: Seq<u64>, v: u64) -> Seq<u64> {
    (if h.len() >= HIST_LEN { h.drop_first() } else { h }).push(v)
}

/// A panel is stale when nothing has arrived, or when more than
/// [`STALE_AFTER_MS`] passed since the last message (a clock reading before
/// it counts as no time passed).
pub open spec fn stale_at(last_seen_ms: Option<u64>, now_ms: u64) -> bool {
    match last_seen_ms {
        None => true,
        Some(t) => now_ms > t && now_ms - t > STALE_AFTER_MS,
    }
}

/// Motor duty shifted by 100 and clamped into `0..=200`.
pub open spec fn duty_sample(duty: i16) -> u64 {
    let v = duty + 100;
    (if v < 0 { 0 } else if v > 200 { 200 } else { v }) as u64
}

/// The current-sense fields are as they were.
pub open spec fn current_kept(before: BoardTelemetry, after: BoardTelemetry) -> bool {
    &&& after.cur_r_ma == before.cur_r_ma && after.cur_l_ma == before.cur_l_ma
    &&& after.hist_current@ == before.hist_current@
}

/// The larger of the two channel currents.
pub open spec fn current_sample(r_ma: u16, l_ma: u16) -> u64 {
    (if r_ma >= l_ma { r_ma } else { l_ma }) as u64
}

/// The duty sparkline shows a duty in `-100..=100` as `duty + 100`, so
/// full reverse is 0, stop is 100 and full forward is 200; a duty beyond
/// that range shows at the nearer end.
pub proof fn lemma_duty_sample(duty: i16)
    ensures
        -100 <= duty <= 100 ==> duty_sample(duty) == duty + 100,
        duty < -100 ==> duty_sample(duty) == 0,
        duty > 100 ==> duty_sample(duty) == 200,
{
}

/// `after` is `before` with the message `msg`, arrived at `now_ms`, recorded:
/// the arrival time always; a joystick reading or received packet sets the
/// position and buttons and extends both position histories; a motor state
/// sets the duty and extends the duty history; a link state sets the link;
/// a current-sense reading sets both channel currents and extends the current
/// history with the larger; and nothing else changes.
pub open spec fn telemetry_applied(before: BoardTelemetry, after: BoardTelemetry, msg: BoardToHost, now_ms: u64) -> bool {
    &&& after.last_seen_ms == Some(now_ms)
    &&& match msg {
        BoardToHost::JoystickState { x, y, buttons } | BoardToHost::ReceivedPacket { x, y, buttons } => {
            &&& after.joy_x == Some(x) && after.joy_y == Some(y) && after.buttons == buttons
            &&& after.hist_x@ == hist_push(before.hist_x@, x as u64)
            &&& after.hist_y@ == hist_push(before.hist_y@, y as u64)
            &&& after.link == before.link && after.motor_duty == before.motor_duty
            &&& after.hist_duty@ == before.hist_duty@
            &&& current_kept(before, after)
        },
        BoardToHost::MotorState { duty } => {
            &&& after.motor_duty == Some(duty)
            &&& after.hist_duty@ == hist_push(before.hist_duty@, duty_sample(duty))
            &&& after.link == before.link
            &&& after.joy_x == before.joy_x && after.joy_y == before.joy_y
            &&& after.buttons == before.buttons
            &&& after.hist_x@ == before.hist_x@ && after.hist_y@ == before.hist_y@
            &&& current_kept(before, after)
        },
        BoardToHost::EspNowLinkState(state) => {
            &&& after.link == Some(state)
            &&& after.motor_duty == before.motor_duty
            &&& after.joy_x == before.joy_x && after.joy_y == before.joy_y
            &&& after.buttons == before.buttons
            &&& after.hist_x@ == before.hist_x@ && after.hist_y@ == before.hist_y@
            &&& after.hist_duty@ == before.hist_duty@
            &&& current_kept(before, after)
        },
        BoardToHost::CurrentSense { r_ma, l_ma } => {
            &&& after.cur_r_ma == Some(r_ma) && after.cur_l_ma == Some(l_ma)
            &&& after.hist_current@ == hist_push(before.hist_current@, current_sample(r_ma, l_ma))
            &&& after.link == before.link && after.motor_duty == before.motor_duty
            &&& after.joy_x == before.joy_x && after.joy_y == before.joy_y
            &&& after.buttons == before.buttons
            &&& after.hist_x@ == before.hist_x@ && after.hist_y@ == before.hist_y@
            &&& after.hist_duty@ == before.hist_duty@
        },
        _ => {
            &&& after.link == before.link && after.motor_duty == before.motor_duty
            &&& after.joy_x == before.joy_x && after.joy_y == before.joy_y
            &&& after.buttons == before.buttons
            &&& after.hist_x@ == before.hist_x@ && after.hist_y@ == before.hist_y@
            &&& after.hist_duty@ == before.hist_duty@
            &&& current_kept(before, after)
        },
    }
}

impl BoardTelemetry {
    /// Nothing has arrived from this board yet.
    pub open spec fn is_fresh(&self) -> bool {
        &&& self.link is None && self.joy_x is None && self.joy_y is None && self.buttons == 0
        &&& self.motor_duty is None && self.last_seen_ms is None
        &&& self.hist_x@.len() == 0 && self.hist_y@.len() == 0 && self.hist_duty@.len() == 0
        &&& self.cur_r_ma is None && self.cur_l_ma is None && self.hist_current@.len() == 0
    }

    /// A board from which nothing has arrived yet.
    pub fn new() -> (b: Self)
        ensures
            b.is_fresh(),
    {
        BoardTelemetry {
            link: None,
            joy_x: None,
            joy_y: None,
            buttons: 0,
            motor_duty: None,
            last_seen_ms: None,
            hist_x: VecDeque::new(),
            hist_y: VecDeque::new(),
            hist_duty: VecDeque::new(),
            cur_r_ma: None,
            cur_l_ma: None,
            hist_current: VecDeque::new(),
        }
    }

    /// Append a sample to a history, keeping at most [`HIST_LEN`] samples.
    pub fn push_hist(buf: &mut VecDeque<u64>, v: u64)
        ensures
            final(buf)@ == hist_push(old(buf)@, v),
    {
        if buf.len() >= HIST_LEN {
            let _ = buf.pop_front();
        }
        buf.push_back(v);
        proof {
            assert(final(buf)@ =~= hist_push(old(buf)@, v));
        }
    }

    /// Whether this panel shows stale data at `now_ms`.
    pub fn is_stale(&self, now_ms: u64) -> (b: bool)
        ensures
            b == stale_at(self.last_seen_ms, now_ms),
    {
        match self.last_seen_ms {
            None => true,
            Some(t) => now_ms.saturating_sub(t) > STALE_AFTER_MS,
        }
    }

    /// Record one telemetry message from this board arriving at `now_ms`.
    pub fn apply(&mut self, msg: &BoardToHost, now_ms: u64)
        ensures
            telemetry_applied(*old(self), *final(self), *msg, now_ms),
            *msg matches BoardToHost::MotorState { duty } ==> ({
                &&& final(self).hist_duty@.len() > 0
                &&& final(self).hist_duty@.last() == if duty < -100 { 0 } else if duty > 100 { 200 } else { duty + 100 }
                &&& final(self).motor_duty == Some(duty)
            }),
    {
        proof {
            if let BoardToHost::MotorState { duty } = *msg {
                lemma_duty_sample(duty);
            }
        }
        self.last_seen_ms = Some(now_ms);
        match msg {
            BoardToHost::JoystickState { x, y, buttons } | BoardToHost::ReceivedPacket { x, y, buttons } => {
                self.joy_x = Some(*x);
                self.joy_y = Some(*y);
                self.buttons = *buttons;
                Self::push_hist(&mut self.hist_x, *x as u64);
                Self::push_hist(&mut self.hist_y, *y as u64);
            },
            BoardToHost::MotorState { duty } => {
                self.motor_duty = Some(*duty);
                let shifted: i32 = *duty as i32 + 100;
                let clamped: i32 = if shifted < 0 { 0 } else if shifted > 200 { 200 } else { shifted };
                Self::push_hist(&mut self.hist_duty, clamped as u64);
            },
            BoardToHost::EspNowLinkState(state) => {
                self.link = Some(*state);
            },
            BoardToHost::CurrentSense { r_ma, l_ma } => {
                self.cur_r_ma = Some(*r_ma);
                self.cur_l_ma = Some(*l_ma);
                let larger: u16 = if *r_ma >= *l_ma { *r_ma } else { *l_ma };
                Self::push_hist(&mut self.hist_current, larger as u64);
            },
            _ => {},
        }
    }
}

/// Live telemetry of both boards, and which of them is the USB gateway.
pub struct Telemetry {
    pub controller: BoardTelemetry,
    pub vehicle: BoardTelemetry,
    /// Which board is directly on USB (learned from `Pong`).
    pub gateway: Option<BoardKind>,
    pub connected: bool,
    pub error_count: u32,
}

/// The board a message's telemetry belongs to, if any: a relayed message
/// belongs to its source board (when its payload decoded), a `Pong` or an
/// error to none, and any other message to the gateway board once known.
pub open spec fn telemetry_target(msg: BoardToHost, relayed_decoded: bool, gateway: Option<BoardKind>) -> Option<BoardKind> {
    match msg {
        BoardToHost::Pong { .. } => None,
        BoardToHost::Error(_) => None,
        BoardToHost::FromPeer { source, .. } => if relayed_decoded { Some(source) } else { None },
        _ => gateway,
    }
}

impl Telemetry {
    /// Nothing received yet, no gateway known.
    pub fn new() -> (t: Self)
        ensures
            t.gateway is None && !t.connected && t.error_count == 0,
            t.controller.is_fresh() && t.vehicle.is_fresh(),
    {
        Telemetry {
            controller: BoardTelemetry::new(),
            vehicle: BoardTelemetry::new(),
            gateway: None,
            connected: false,
            error_count: 0,
        }
    }

    /// Consume one board→host message arriving at `now_ms`. `relayed` is the
    /// decoded payload of a `FromPeer` message (`None` when it did not
    /// decode, and ignored for other messages).
    ///
    /// A `Pong` names the gateway board and marks the link connected; an
    /// `Error` is counted (saturating); relayed telemetry updates its source
    /// board; any other message updates the gateway board once it is known.
    pub fn ingest(&mut self, msg: &BoardToHost, relayed: Option<&BoardToHost>, now_ms: u64)
        ensures
            match *msg {
                BoardToHost::Pong { board, .. } => final(self).gateway == Some(board) && final(self).connected,
                _ => final(self).gateway == old(self).gateway && final(self).connected == old(self).connected,
            },
            final(self).error_count == match *msg {
                BoardToHost::Error(_) => if old(self).error_count == u32::MAX { u32::MAX } else { (old(self).error_count + 1) as u32 },
                _ => old(self).error_count,
            },
            ({
                let target = telemetry_target(*msg, relayed is Some, old(self).gateway);
                let applied = match (*msg, relayed) {
                    (BoardToHost::FromPeer { .. }, Some(inner)) => *inner,
                    _ => *msg,
                };
                &&& target != Some(BoardKind::Controller) ==> final(self).controller == old(self).controller
                &&& target != Some(BoardKind::Vehicle) ==> final(self).vehicle == old(self).vehicle
                &&& target == Some(BoardKind::Controller)
                    ==> telemetry_applied(old(self).controller, final(self).controller, applied, now_ms)
                &&& target == Some(BoardKind::Vehicle)
                    ==> telemetry_applied(old(self).vehicle, final(self).vehicle, applied, now_ms)
            }),
    {
        match msg {
            BoardToHost::Pong { board, .. } => {
                self.gateway = Some(*board);
                self.connected = true;
            },
            BoardToHost::Error(_) => {
                self.error_count = self.error_count.saturating_add(1);
            },
            BoardToHost::FromPeer { source, .. } => {
                if let Some(inner) = relayed {
                    self.apply_telemetry(*source, inner, now_ms);
                }
            },
            _ => {
                if let Some(kind) = self.gateway {
                    self.apply_telemetry(kind, msg, now_ms);
                }
            },
        }
    }

    /// Record telemetry of board `kind`.
    pub fn apply_telemetry(&mut self, kind: BoardKind, msg: &BoardToHost, now_ms: u64)
        ensures
            final(self).gateway == old(self).gateway,
            final(self).connected == old(self).connected,
            final(self).error_count == old(self).error_count,
            kind == BoardKind::Controller ==> final(self).vehicle == old(self).vehicle
                && telemetry_applied(old(self).controller, final(self).controller, *msg, now_ms),
            kind == BoardKind::Vehicle ==> final(self).controller == old(self).controller
                && telemetry_applied(old(self).vehicle, final(self).vehicle, *msg, now_ms),
    {
        match kind {
            BoardKind::Controller => self.controller.apply(msg, now_ms),
            BoardKind::Vehicle => self.vehicle.apply(msg, now_ms),
        }
    }
}

/// Display name of a board.
pub fn board_kind_str(board: &BoardKind) -> (s: &'static str)
    ensures
        s@ == match *board {
            BoardKind::Controller => "Controller"@,
            BoardKind::Vehicle => "Vehicle"@,
        },
{
    match board {
        BoardKind::Controller => "Controller",
        BoardKind::Vehicle => "Vehicle",
    }
}

/// Display name of a link state.
pub fn link_str(state: &LinkStateKind) -> (s: &'static str)
    ensures
        s@ == match *state {
            LinkStateKind::AwaitingFirstPacket => "AwaitingFirstPacket"@,
            LinkStateKind::Alive => "Alive"@,
            LinkStateKind::TimedOut => "TimedOut"@,
        },
{
    match state {
        LinkStateKind::AwaitingFirstPacket => "AwaitingFirstPacket",
        LinkStateKind::Alive => "Alive",
        LinkStateKind::TimedOut => "TimedOut",
    }
}

/// How long the dashboard keeps pinging for a board before giving up.
pub const CONNECT_TIMEOUT_MS: u64 = 10_000;

/// Spacing of the pings while connecting (a devkit may reset when its port
/// opens, so the first pings can go unanswered).
pub const CONNECT_PING_INTERVAL_MS: u64 = 500;

/// What the connect loop does on one poll.
#[derive(Copy, Clone, Debug, PartialEq, Eq, Structural)]
pub enum ConnectStep {
    /// Send a `Ping` now.
    Ping,
    /// Nothing due yet; poll again shortly.
    Wait,
    /// No `Pong` within [`CONNECT_TIMEOUT_MS`].
    GiveUp,
}

/// One poll of the connect loop, `elapsed_ms` after it started, with the next
/// ping due at `next_ping_ms` (0 at the start, so the first poll pings): give
/// up once the timeout has run out; otherwise ping when due, the next ping
/// then falling one interval later; otherwise wait.
pub fn connect_step(elapsed_ms: u64, next_ping_ms: &mut u64) -> (step: ConnectStep)
    ensures
        elapsed_ms >= CONNECT_TIMEOUT_MS ==> step == ConnectStep::GiveUp && *final(next_ping_ms) == *old(next_ping_ms),
        elapsed_ms < CONNECT_TIMEOUT_MS && elapsed_ms >= *old(next_ping_ms) ==> step == ConnectStep::Ping
            && *final(next_ping_ms) == elapsed_ms + CONNECT_PING_INTERVAL_MS,
        elapsed_ms < CONNECT_TIMEOUT_MS && elapsed_ms < *old(next_ping_ms) ==> step == ConnectStep::Wait
            && *final(next_ping_ms) == *old(next_ping_ms),
{
    if elapsed_ms >= CONNECT_TIMEOUT_MS {
        ConnectStep::GiveUp
    } else if elapsed_ms >= *next_ping_ms {
        *next_ping_ms = elapsed_ms + CONNECT_PING_INTERVAL_MS;
        ConnectStep::Ping
    } else {
        ConnectStep::Wait
    }
}

/// A history never holds more than [`HIST_LEN`] samples once it starts within
/// that bound, and always ends with the newest sample.
pub proof fn lemma_hist_bounded(h: Seq<u64>, v: u64)
    requires
        h.len() <= HIST_LEN,
    ensures
        hist_push(h, v).len() <= HIST_LEN,
        hist_push(h, v).last() == v,
{
}

} // verus!
