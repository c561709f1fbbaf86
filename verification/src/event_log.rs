//! The dashboard's event log: the text and colour of the line that each
//! board→host message adds, and the bounded log that keeps the newest lines.
//!
//! A line is `[TAG] fields`, with numbers in decimal and button masks as
//! `0x`-prefixed two-digit lowercase hex; a message relayed from the peer
//! board is its inner line prefixed with the source board in brackets.
use vstd::prelude::*;
use std::collections::VecDeque;
use crate::host_proto::{BoardKind, BoardToHost, HostError, LinkStateKind};
use crate::pitwall::{board_kind_str, link_str};

verus! {

/// Maximum retained event-log lines.
pub const LOG_LEN: usize = 500;

/// The colour of a log line.
#[derive(Copy, Clone, Debug, PartialEq, Eq, Structural)]
pub enum LogColor {
    Green,
    Cyan,
    Yellow,
    Blue,
    Red,
    Gray,
    DarkGray,
}

/// The decimal digit `d` (`0..=9`) as text.
pub open spec fn digit_text(d: nat) -> Seq<char> {
    if d == 0 { "0"@ } else if d == 1 { "1"@ } else if d == 2 { "2"@ } else if d == 3 { "3"@ }
    else if d == 4 { "4"@ } else if d == 5 { "5"@ } else if d == 6 { "6"@ } else if d == 7 { "7"@ }
    else if d == 8 { "8"@ } else { "9"@ }
}

/// The lowercase hex digit `d` (`0..=15`) as text.
pub open spec fn hex_digit_text(d: nat) -> Seq<char> {
    if d < 10 { digit_text(d) } else if d == 10 { "a"@ } else if d == 11 { "b"@ } else if d == 12 { "c"@ }
    else if d == 13 { "d"@ } else if d == 14 { "e"@ } else { "f"@ }
}

/// `n` in decimal, without leading zeros.
pub open spec fn dec_text(n: nat) -> Seq<char>
    decreases n,
{
    if n < 10 { digit_text(n) } else { dec_text(n / 10) + digit_text(n % 10) }
}

/// A signed number in decimal, with `-` before a negative one.
pub open spec fn signed_text(v: int) -> Seq<char> {
    if v < 0 { "-"@ + dec_text((-v) as nat) } else { dec_text(v as nat) }
}

/// A byte as `0x` and two lowercase hex digits.
pub open spec fn hex_byte_text(b: u8) -> Seq<char> {
    "0x"@ + hex_digit_text((b / 16) as nat) + hex_digit_text((b % 16) as nat)
}

/// The name of a board.
pub open spec fn kind_text(k: BoardKind) -> Seq<char> {
    match k {
        BoardKind::Controller => "Controller"@,
        BoardKind::Vehicle => "Vehicle"@,
    }
}

/// The name of a link state.
pub open spec fn link_text(s: LinkStateKind) -> Seq<char> {
    match s {
        LinkStateKind::AwaitingFirstPacket => "AwaitingFirstPacket"@,
        LinkStateKind::Alive => "Alive"@,
        LinkStateKind::TimedOut => "TimedOut"@,
    }
}

/// The name of a board error.
pub open spec fn error_text(e: HostError) -> Seq<char> {
    match e {
        HostError::NotApplicable => "NotApplicable"@,
        HostError::FrameTooLarge => "FrameTooLarge"@,
        HostError::ParseError => "ParseError"@,
        HostError::Busy => "Busy"@,
    }
}

/// `x=X y=Y buttons=0xBB`.
pub open spec fn position_text(x: u8, y: u8, buttons: u8) -> Seq<char> {
    "x="@ + dec_text(x as nat) + " y="@ + dec_text(y as nat) + " buttons="@ + hex_byte_text(buttons)
}

/// The text of the log line of `msg`. `relayed` holds the decoded payloads
/// of a relayed message: `relayed[0]` is what `msg`'s payload decodes to,
/// `relayed[1]` what its payload decodes to if it is relayed too, and so on;
/// a relay whose payload did not decode has no entry.
pub open spec fn msg_line_text(msg: BoardToHost, relayed: Seq<BoardToHost>) -> Seq<char>
    decreases relayed.len(),
{
    match msg {
        BoardToHost::Pong { version, board } => "[PONG] version="@ + dec_text(version as nat) + " board="@ + kind_text(board),
        BoardToHost::JoystickState { x, y, buttons } => "[JOYSTICK] "@ + position_text(x, y, buttons),
        BoardToHost::EspNowLinkState(state) => "[LINK] "@ + link_text(state),
        BoardToHost::ReceivedPacket { x, y, buttons } => "[PACKET] "@ + position_text(x, y, buttons),
        BoardToHost::MotorState { duty } => "[MOTOR] duty="@ + signed_text(duty as int),
        BoardToHost::LedAck => "[LED_ACK]"@,
        BoardToHost::Error(e) => "[ERROR] "@ + error_text(e),
        BoardToHost::FromPeer { source, .. } => "["@ + kind_text(source) + "] "@ + if relayed.len() > 0 {
            msg_line_text(relayed[0], relayed.skip(1))
        } else {
            "<undecodable telemetry>"@
        },
        BoardToHost::CurrentSense { r_ma, l_ma } => "[UNKNOWN] CurrentSense { r_ma: "@ + dec_text(r_ma as nat)
            + ", l_ma: "@ + dec_text(l_ma as nat) + " }"@,
        BoardToHost::CurrentSenseRaw { r_mv, l_mv, duty } => "[UNKNOWN] CurrentSenseRaw { r_mv: "@
            + dec_text(r_mv as nat) + ", l_mv: "@ + dec_text(l_mv as nat) + ", duty: "@ + signed_text(duty as int) + " }"@,
    }
}

/// The colour of the log line of `msg` (see [`msg_line_text`] for `relayed`).
pub open spec fn msg_line_color(msg: BoardToHost, relayed: Seq<BoardToHost>) -> LogColor
    decreases relayed.len(),
{
    match msg {
        BoardToHost::Pong { .. } => LogColor::Green,
        BoardToHost::JoystickState { .. } => LogColor::Cyan,
        BoardToHost::EspNowLinkState(_) => LogColor::Yellow,
        BoardToHost::ReceivedPacket { .. } => LogColor::Cyan,
        BoardToHost::MotorState { .. } => LogColor::Blue,
        BoardToHost::LedAck => LogColor::Green,
        BoardToHost::Error(_) => LogColor::Red,
        BoardToHost::FromPeer { .. } => if relayed.len() > 0 {
            msg_line_color(relayed[0], relayed.skip(1))
        } else {
            LogColor::DarkGray
        },
        _ => LogColor::DarkGray,
    }
}

fn digit_str(d: u64) -> (s: &'static str)
    requires
        d < 16,
    ensures
        s@ == hex_digit_text(d as nat),
{
    match d {
        0 => "0",
        1 => "1",
        2 => "2",
        3 => "3",
        4 => "4",
        5 => "5",
        6 => "6",
        7 => "7",
        8 => "8",
        9 => "9",
        10 => "a",
        11 => "b",
        12 => "c",
        13 => "d",
        14 => "e",
        _ => "f",
    }
}

/// Append `n` in decimal.
fn push_dec(s: &mut String, n: u64)
    ensures
        final(s)@ == old(s)@ + dec_text(n as nat),
    decreases n,
{
    if n >= 10 {
        push_dec(s, n / 10);
    }
    s.append(digit_str(n % 10));
    proof {
        if n >= 10 {
            assert(final(s)@ =~= old(s)@ + dec_text(n as nat));
        } else {
            assert(final(s)@ =~= old(s)@ + dec_text(n as nat));
        }
    }
}

/// Append a signed number in decimal.
fn push_signed(s: &mut String, v: i16)
    ensures
        final(s)@ == old(s)@ + signed_text(v as int),
{
    if v < 0 {
        s.append("-");
        let m: i32 = -(v as i32);
        push_dec(s, m as u64);
        assert(final(s)@ =~= old(s)@ + signed_text(v as int));
    } else {
        push_dec(s, v as u64);
    }
}

/// Append `x=X y=Y buttons=0xBB`.
fn push_position(s: &mut String, x: u8, y: u8, buttons: u8)
    ensures
        final(s)@ == old(s)@ + position_text(x, y, buttons),
{
    s.append("x=");
    push_dec(s, x as u64);
    s.append(" y=");
    push_dec(s, y as u64);
    s.append(" buttons=0x");
    s.append(digit_str((buttons / 16) as u64));
    s.append(digit_str((buttons % 16) as u64));
    proof {
        reveal_strlit(" buttons=0x");
        reveal_strlit(" buttons=");
        reveal_strlit("0x");
        assert(" buttons=0x"@ =~= " buttons="@ + "0x"@);
    }
    assert(final(s)@ =~= old(s)@ + position_text(x, y, buttons));
}

/// The text and colour of the log line of a board message. `relayed` holds
/// the decoded payloads of a relayed message, outermost first (see
/// [`msg_line_text`]); it is ignored for other messages.
pub fn board_msg_line(msg: &BoardToHost, relayed: &[BoardToHost]) -> (line: (String, LogColor))
    ensures
        line.0@ == msg_line_text(*msg, relayed@),
        line.1 == msg_line_color(*msg, relayed@),
    decreases relayed@.len(),
{
    let mut s = String::new();
    let color = match msg {
        BoardToHost::Pong { version, board } => {
            s.append("[PONG] version=");
            push_dec(&mut s, *version as u64);
            s.append(" board=");
            s.append(board_kind_str(board));
            LogColor::Green
        },
        BoardToHost::JoystickState { x, y, buttons } => {
            s.append("[JOYSTICK] ");
            push_position(&mut s, *x, *y, *buttons);
            LogColor::Cyan
        },
        BoardToHost::EspNowLinkState(state) => {
            s.append("[LINK] ");
            s.append(link_str(state));
            LogColor::Yellow
        },
        BoardToHost::ReceivedPacket { x, y, buttons } => {
            s.append("[PACKET] ");
            push_position(&mut s, *x, *y, *buttons);
            LogColor::Cyan
        },
        BoardToHost::MotorState { duty } => {
            s.append("[MOTOR] duty=");
            push_signed(&mut s, *duty);
            LogColor::Blue
        },
        BoardToHost::LedAck => {
            s.append("[LED_ACK]");
            LogColor::Green
        },
        BoardToHost::Error(e) => {
            s.append("[ERROR] ");
            s.append(match e {
                HostError::NotApplicable => "NotApplicable",
                HostError::FrameTooLarge => "FrameTooLarge",
                HostError::ParseError => "ParseError",
                HostError::Busy => "Busy",
            });
            LogColor::Red
        },
        BoardToHost::FromPeer { source, .. } => {
            s.append("[");
            s.append(board_kind_str(source));
            s.append("] ");
            if relayed.len() > 0 {
                let rest = vstd::slice::slice_subrange(relayed, 1, relayed.len());
                assert(rest@ =~= relayed@.skip(1));
                let (inner, color) = board_msg_line(&relayed[0], rest);
                s.append(inner.as_str());
                color
            } else {
                s.append("<undecodable telemetry>");
                LogColor::DarkGray
            }
        },
        BoardToHost::CurrentSense { r_ma, l_ma } => {
            s.append("[UNKNOWN] CurrentSense { r_ma: ");
            push_dec(&mut s, *r_ma as u64);
            s.append(", l_ma: ");
            push_dec(&mut s, *l_ma as u64);
            s.append(" }");
            LogColor::DarkGray
        },
        BoardToHost::CurrentSenseRaw { r_mv, l_mv, duty } => {
            s.append("[UNKNOWN] CurrentSenseRaw { r_mv: ");
            push_dec(&mut s, *r_mv as u64);
            s.append(", l_mv: ");
            push_dec(&mut s, *l_mv as u64);
            s.append(", duty: ");
            push_signed(&mut s, *duty);
            s.append(" }");
            LogColor::DarkGray
        },
    };
    assert(s@ =~= msg_line_text(*msg, relayed@));
    (s, color)
}

/// A log entry by its text.
pub open spec fn entry_view(e: (String, LogColor)) -> (Seq<char>, LogColor) {
    (e.0@, e.1)
}

/// The log after adding a line: the oldest line is dropped first when the
/// log already holds [`LOG_LEN`] lines.
pub open spec fn log_push(log: Seq<(Seq<char>, LogColor)>, line: Seq<char>, color: LogColor) -> Seq<(Seq<char>, LogColor)> {
    (if log.len() >= LOG_LEN { log.drop_first() } else { log }).push((line, color))
}

/// The scrolling event log: the newest [`LOG_LEN`] lines, oldest first.
pub struct EventLog {
    lines: VecDeque<(String, LogColor)>,
}

impl View for EventLog {
    type V = Seq<(Seq<char>, LogColor)>;

    closed spec fn view(&self) -> Seq<(Seq<char>, LogColor)> {
        self.lines@.map_values(|e: (String, LogColor)| entry_view(e))
    }
}

impl EventLog {
    /// An empty log.
    pub fn new() -> (l: Self)
        ensures
            l@ == Seq::<(Seq<char>, LogColor)>::empty(),
    {
        let l = EventLog { lines: VecDeque::new() };
        assert(l@ =~= Seq::<(Seq<char>, LogColor)>::empty());
        l
    }

    /// Add a line, dropping the oldest one when the log is full.
    pub fn push(&mut self, line: String, color: LogColor)
        ensures
            final(self)@ == log_push(old(self)@, line@, color),
    {
        let ghost before = self.lines@;
        if self.lines.len() >= LOG_LEN {
            let _ = self.lines.pop_front();
            assert(self.lines@.map_values(|e: (String, LogColor)| entry_view(e))
                =~= before.map_values(|e: (String, LogColor)| entry_view(e)).drop_first());
        }
        let ghost mid = self.lines@;
        self.lines.push_back((line, color));
        assert(self.lines@.map_values(|e: (String, LogColor)| entry_view(e))
            =~= mid.map_values(|e: (String, LogColor)| entry_view(e)).push((line@, color)));
    }

    /// The number of lines held.
    pub fn len(&self) -> (n: usize)
        ensures
            n == self@.len(),
    {
        self.lines.len()
    }

    /// The `i`-th line, oldest first.
    pub fn line(&self, i: usize) -> (e: (&String, LogColor))
        requires
            i < self@.len(),
        ensures
            (e.0@, e.1) == self@[i as int],
    {
        let entry = &self.lines[i];
        (&entry.0, entry.1)
    }
}

} // verus!
