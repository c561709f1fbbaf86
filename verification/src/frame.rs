//! Typed ESP-NOW frame envelope shared by controller and vehicle.
//!
//! Every ESP-NOW payload begins with a one-byte [`FrameKind`] discriminant; the
//! remaining bytes are the kind-specific body. This multiplexes the periodic
//! control stream with the bidirectional USB-host tunnel and the pairing
//! handshake over a single ESP-NOW link.
//!
//! Wire layout: `[kind: u8][body: ..]`
//!
//! - `Control` (`0x01`) — body is the 8-byte [`ControlPacket`](crate::protocol::ControlPacket).
//!   Only these frames drive the link watchdog and sequence-freshness logic.
//! - `TunnelCmd` (`0x02`) — opaque postcard bytes of a host→board message.
//! - `TunnelEvt` (`0x03`) — opaque postcard bytes of a board→host message.
//! - `PairAck` (`0x04`) — empty pairing acknowledgement; the recipient learns
//!   the sender's MAC from the frame's source address.
//!
//! The wire bytes are append-only and never reordered.
use vstd::prelude::*;
use crate::protocol::CONTROL_PACKET_LEN;

verus! {

/// Largest frame body this protocol emits, well under the 250-byte ESP-NOW limit.
pub const MAX_FRAME_BODY: usize = 64;

/// Maximum encoded frame size: one discriminant byte plus the largest body.
pub const MAX_ENCODED_FRAME: usize = 65;

/// Wire discriminant of the frame envelope.
#[derive(Copy, Clone, PartialEq, Eq, Debug)]
pub enum FrameKind {
    /// Periodic joystick control packet (wire byte `0x01`).
    Control,
    /// Tunnelled host→board command bytes (wire byte `0x02`).
    TunnelCmd,
    /// Tunnelled board→host telemetry bytes (wire byte `0x03`).
    TunnelEvt,
    /// Empty pairing acknowledgement (wire byte `0x04`).
    PairAck,
}

/// The wire byte of a frame kind.
pub open spec fn kind_byte(k: FrameKind) -> u8 {
    match k {
        FrameKind::Control => 0x01,
        FrameKind::TunnelCmd => 0x02,
        FrameKind::TunnelEvt => 0x03,
        FrameKind::PairAck => 0x04,
    }
}

/// The frame kind a wire byte names, if any.
pub open spec fn kind_of_byte(b: u8) -> Option<FrameKind> {
    if b == 0x01 {
        Some(FrameKind::Control)
    } else if b == 0x02 {
        Some(FrameKind::TunnelCmd)
    } else if b == 0x03 {
        Some(FrameKind::TunnelEvt)
    } else if b == 0x04 {
        Some(FrameKind::PairAck)
    } else {
        None
    }
}

impl FrameKind {
    /// The wire byte of this kind.
    pub fn as_u8(self) -> (b: u8)
        ensures
            b == kind_byte(self),
    {
        match self {
            FrameKind::Control => 0x01,
            FrameKind::TunnelCmd => 0x02,
            FrameKind::TunnelEvt => 0x03,
            FrameKind::PairAck => 0x04,
        }
    }

    /// The kind a wire byte names, or `None` for an unknown byte.
    fn from_u8(value: u8) -> (k: Option<Self>)
        ensures
            k == kind_of_byte(value),
    {
        match value {
            0x01 => Some(FrameKind::Control),
            0x02 => Some(FrameKind::TunnelCmd),
            0x03 => Some(FrameKind::TunnelEvt),
            0x04 => Some(FrameKind::PairAck),
            _ => None,
        }
    }
}

/// A decoded frame borrowing its body from the receive buffer.
#[derive(Copy, Clone, PartialEq, Eq, Debug)]
pub enum Frame<'a> {
    Control(&'a [u8]),
    TunnelCmd(&'a [u8]),
    TunnelEvt(&'a [u8]),
    PairAck,
}

/// What a [`Frame`] holds, with its body as a sequence of bytes.
pub enum FrameView {
    Control(Seq<u8>),
    TunnelCmd(Seq<u8>),
    TunnelEvt(Seq<u8>),
    PairAck,
}

impl<'a> View for Frame<'a> {
    type V = FrameView;

    open spec fn view(&self) -> FrameView {
        match *self {
            Frame::Control(b) => FrameView::Control(b@),
            Frame::TunnelCmd(b) => FrameView::TunnelCmd(b@),
            Frame::TunnelEvt(b) => FrameView::TunnelEvt(b@),
            Frame::PairAck => FrameView::PairAck,
        }
    }
}

/// Errors from envelope encode/decode.
#[derive(Copy, Clone, PartialEq, Eq, Debug)]
pub enum FrameError {
    /// Received buffer was empty (no discriminant byte).
    Empty,
    /// Discriminant byte did not name a known [`FrameKind`].
    UnknownKind,
    /// A `Control` body was not [`CONTROL_PACKET_LEN`] bytes.
    BadControlLength,
    /// The frame did not fit the destination buffer during encode.
    BufferTooSmall,
}

/// The bytes of the frame `[kind][body]`.
pub open spec fn frame_bytes(kind: FrameKind, body: Seq<u8>) -> Seq<u8> {
    seq![kind_byte(kind)] + body
}

/// What a received payload decodes to.
pub open spec fn decode_spec(buf: Seq<u8>) -> Result<FrameView, FrameError> {
    if buf.len() == 0 {
        Err(FrameError::Empty)
    } else {
        let body = buf.skip(1);
        match kind_of_byte(buf[0]) {
            None => Err(FrameError::UnknownKind),
            Some(FrameKind::Control) => {
                if body.len() != CONTROL_PACKET_LEN {
                    Err(FrameError::BadControlLength)
                } else {
                    Ok(FrameView::Control(body))
                }
            },
            Some(FrameKind::TunnelCmd) => Ok(FrameView::TunnelCmd(body)),
            Some(FrameKind::TunnelEvt) => Ok(FrameView::TunnelEvt(body)),
            Some(FrameKind::PairAck) => Ok(FrameView::PairAck),
        }
    }
}

/// `after` is `before` with its first `data.len()` bytes replaced by `data`.
pub open spec fn overwritten_prefix(before: Seq<u8>, data: Seq<u8>, after: Seq<u8>) -> bool {
    &&& data.len() <= before.len()
    &&& after == data + before.skip(data.len() as int)
}

/// Encode `[kind][body]` into the front of `out`, returning the number of bytes
/// written; the rest of `out` is left as it was.
pub fn encode_frame(kind: FrameKind, body: &[u8], out: &mut [u8]) -> (r: Result<usize, FrameError>)
    ensures
        old(out)@.len() < 1 + body@.len() ==> {
            &&& r == Err::<usize, FrameError>(FrameError::BufferTooSmall)
            &&& final(out)@ == old(out)@
        },
        old(out)@.len() >= 1 + body@.len() ==> {
            &&& r == Ok::<usize, FrameError>((1 + body@.len()) as usize)
            &&& overwritten_prefix(old(out)@, frame_bytes(kind, body@), final(out)@)
        },
{
    if out.len() <= body.len() {
        return Err(FrameError::BufferTooSmall);
    }
    let total = 1 + body.len();
    out[0] = kind.as_u8();
    let mut i: usize = 0;
    while i < body.len()
        invariant
            total == 1 + body@.len(),
            total <= out@.len(),
            out@.len() == old(out)@.len(),
            0 <= i <= body@.len(),
            out@[0] == kind_byte(kind),
            forall|j: int| 0 <= j < i ==> out@[j + 1] == body@[j],
            forall|j: int| 1 + i <= j < out@.len() ==> out@[j] == old(out)@[j],
        decreases body@.len() - i,
    {
        out[i + 1] = body[i];
        i = i + 1;
    }
    assert(out@ =~= frame_bytes(kind, body@) + old(out)@.skip(total as int));
    Ok(total)
}

/// Encode a control packet body as a `Control` frame.
pub fn encode_control(packet_bytes: &[u8; CONTROL_PACKET_LEN], out: &mut [u8]) -> (r: Result<usize, FrameError>)
    ensures
        old(out)@.len() < 1 + CONTROL_PACKET_LEN ==> {
            &&& r == Err::<usize, FrameError>(FrameError::BufferTooSmall)
            &&& final(out)@ == old(out)@
        },
        old(out)@.len() >= 1 + CONTROL_PACKET_LEN ==> {
            &&& r == Ok::<usize, FrameError>((1 + CONTROL_PACKET_LEN) as usize)
            &&& overwritten_prefix(old(out)@, frame_bytes(FrameKind::Control, packet_bytes@), final(out)@)
        },
{
    encode_frame(FrameKind::Control, packet_bytes.as_slice(), out)
}

/// Decode a raw ESP-NOW payload into a [`Frame`] borrowing from `buf`. A
/// `PairAck` body, if any, is ignored.
pub fn decode_frame(buf: &[u8]) -> (r: Result<Frame<'_>, FrameError>)
    ensures
        match r {
            Ok(f) => decode_spec(buf@) == Ok::<FrameView, FrameError>(f@),
            Err(e) => decode_spec(buf@) == Err::<FrameView, FrameError>(e),
        },
{
    if buf.len() == 0 {
        return Err(FrameError::Empty);
    }
    let kind = match FrameKind::from_u8(buf[0]) {
        Some(k) => k,
        None => return Err(FrameError::UnknownKind),
    };
    let body = vstd::slice::slice_subrange(buf, 1, buf.len());
    assert(body@ =~= buf@.skip(1));
    match kind {
        FrameKind::Control => {
            if body.len() != CONTROL_PACKET_LEN {
                return Err(FrameError::BadControlLength);
            }
            Ok(Frame::Control(body))
        },
        FrameKind::TunnelCmd => Ok(Frame::TunnelCmd(body)),
        FrameKind::TunnelEvt => Ok(Frame::TunnelEvt(body)),
        FrameKind::PairAck => Ok(Frame::PairAck),
    }
}

/// What decoding an encoded frame gives back: the body for control frames of
/// the packet length and for tunnel frames, a bare acknowledgement for
/// `PairAck`, and a length error for control frames of any other length.
pub open spec fn decoded_of_encoded(kind: FrameKind, body: Seq<u8>) -> Result<FrameView, FrameError> {
    match kind {
        FrameKind::Control => if body.len() == CONTROL_PACKET_LEN {
            Ok(FrameView::Control(body))
        } else {
            Err(FrameError::BadControlLength)
        },
        FrameKind::TunnelCmd => Ok(FrameView::TunnelCmd(body)),
        FrameKind::TunnelEvt => Ok(FrameView::TunnelEvt(body)),
        FrameKind::PairAck => Ok(FrameView::PairAck),
    }
}

/// The envelope's wire bytes: an encoded frame is one discriminant byte
/// (`0x01` control, `0x02` tunnelled command, `0x03` tunnelled telemetry,
/// `0x04` pairing acknowledgement) followed by the body unchanged; each of
/// these bytes names its kind back, and every other byte names none.
pub proof fn lemma_frame_wire_bytes(kind: FrameKind, body: Seq<u8>, b: u8)
    ensures
        frame_bytes(kind, body).len() == 1 + body.len(),
        frame_bytes(kind, body).skip(1) == body,
        frame_bytes(FrameKind::Control, body)[0] == 0x01u8,
        frame_bytes(FrameKind::TunnelCmd, body)[0] == 0x02u8,
        frame_bytes(FrameKind::TunnelEvt, body)[0] == 0x03u8,
        frame_bytes(FrameKind::PairAck, body)[0] == 0x04u8,
        kind_of_byte(kind_byte(kind)) == Some(kind),
        (b == 0 || b > 4) ==> kind_of_byte(b) is None,
{
    assert(frame_bytes(kind, body).skip(1) =~= body);
}

/// Decoding the bytes of an encoded frame recovers its kind and body.
pub proof fn lemma_frame_roundtrip(kind: FrameKind, body: Seq<u8>)
    ensures
        decode_spec(frame_bytes(kind, body)) == decoded_of_encoded(kind, body),
{
    assert(frame_bytes(kind, body).skip(1) =~= body);
}

} // verus!
