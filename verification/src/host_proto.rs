//! Messages of the bidirectional USB host protocol shared by both boards.
//!
//! On the wire each message is postcard-encoded; on the USB byte stream it is
//! additionally COBS-framed and terminated by `0x00`, while the ESP-NOW tunnel
//! carries the raw (non-COBS) postcard bytes. Variant order is the wire
//! discriminant — append-only, never reordered. The encoders live with the
//! host-side and board-side programs, which derive serde on their own copies
//! of these types.
use vstd::prelude::*;

verus! {

/// Protocol version reported in `Pong`.
pub const PROTOCOL_VERSION: u8 = 1;

/// Maximum encoded USB frame size including COBS overhead and `0x00` terminator.
pub const MAX_FRAME_BYTES: usize = 64;

/// Maximum length of a relayed payload inside `ForPeer` / `FromPeer`.
pub const RELAY_PAYLOAD_MAX: usize = 48;

/// A relayed host-protocol message serialized as opaque (non-COBS postcard) bytes.
pub type RelayPayload = heapless::Vec<u8, RELAY_PAYLOAD_MAX>;

#[verifier::external_type_specification]
#[verifier::external_body]
#[verifier::reject_recursive_types(T)]
pub struct ExHeaplessVec<T, const N: usize>(heapless::Vec<T, N>);

/// The bytes a relay payload holds.
pub uninterp spec fn relay_bytes(payload: heapless::Vec<u8, RELAY_PAYLOAD_MAX>) -> Seq<u8>;

/// `heapless::Vec::from_slice`: a payload holding a copy of `bytes`, or `Err(())`
/// when `bytes` is longer than the payload capacity ([`RELAY_PAYLOAD_MAX`]).
#[verifier::external_body]
pub(crate) fn relay_from_slice(bytes: &[u8]) -> (r: Result<RelayPayload, ()>)
    ensures
        r is Ok <==> bytes@.len() <= RELAY_PAYLOAD_MAX,
        r matches Ok(p) ==> relay_bytes(p) == bytes@,
{
    RelayPayload::from_slice(bytes)
}

/// `heapless::Vec::as_slice`: the bytes the payload holds, never more than its capacity.
#[verifier::external_body]
pub(crate) fn relay_as_slice(payload: &RelayPayload) -> (s: &[u8])
    ensures
        s@ == relay_bytes(*payload),
        s@.len() <= RELAY_PAYLOAD_MAX,
{
    payload.as_slice()
}

/// Messages from host → board. Boards answer `Error(NotApplicable)` for
/// variants they don't support.
#[derive(Debug)]
pub enum HostToBoard {
    Ping { version: u8 },
    /// Override the onboard LED. `None` restores automatic state-driven color.
    SetLed(Option<[u8; 3]>),
    /// Vehicle only: directly set the IBT-2 R_EN and L_EN enable pins.
    SetMotorEnable { r_en: bool, l_en: bool },
    /// Vehicle only: directly set the IBT-2 PWM duty (-100–100).
    SetMotorPwm { duty: i8 },
    /// Relay an opaque host→board message to the paired peer board over the
    /// ESP-NOW tunnel.
    ForPeer(RelayPayload),
    /// Enable or disable streaming this board's telemetry to the peer.
    EnableRemoteTelemetry { on: bool },
    /// Forget the stored pairing and re-run the pairing handshake.
    Repair,
    /// Vehicle only: feed a latched manual PWM override through the drive ramp.
    SetManualPwmRamp { on: bool },
}

/// Messages from board → host.
#[derive(Debug)]
pub enum BoardToHost {
    Pong { version: u8, board: BoardKind },
    /// Controller only: current joystick reading.
    JoystickState { x: u8, y: u8, buttons: u8 },
    /// Both boards: ESP-NOW link state change.
    EspNowLinkState(LinkStateKind),
    /// Vehicle only: last received control packet.
    ReceivedPacket { x: u8, y: u8, buttons: u8 },
    /// Vehicle only: current motor drive level (positive = forward).
    MotorState { duty: i16 },
    LedAck,
    Error(HostError),
    /// Telemetry relayed from the peer board through the gateway; `payload` is
    /// an opaque non-COBS postcard `BoardToHost` produced by `source`.
    FromPeer { source: BoardKind, payload: RelayPayload },
    /// Vehicle only: IBT-2 current-sense readings in milliamps.
    CurrentSense { r_ma: u16, l_ma: u16 },
    /// Vehicle only: raw averaged IS voltages (mV) and the commanded duty.
    CurrentSenseRaw { r_mv: u16, l_mv: u16, duty: i16 },
}

/// Which board a message concerns.
#[derive(Debug, Clone, Copy, PartialEq, Eq, Structural)]
pub enum BoardKind {
    Controller,
    Vehicle,
}

/// ESP-NOW link state as reported to the host.
#[derive(Debug, Clone, Copy, PartialEq, Eq, Structural)]
pub enum LinkStateKind {
    AwaitingFirstPacket,
    Alive,
    TimedOut,
}

/// Errors a board reports to the host.
#[derive(Debug, Clone, Copy, PartialEq, Eq)]
pub enum HostError {
    NotApplicable,
    FrameTooLarge,
    ParseError,
    /// Command channel full; caller should retry.
    Busy,
}

} // verus!
