//! The 8-byte joystick control packet carried in every `Control` frame, and the
//! wrap-around sequence-freshness rule.
use vstd::prelude::*;

verus! {

/// Encoded length of a [`ControlPacket`].
pub const CONTROL_PACKET_LEN: usize = 8;

/// Keepalive interval of the control stream, in milliseconds.
pub const CONTROL_TX_INTERVAL_MS: u64 = 100;

/// Silence after which the vehicle enters its fail-safe stop, in milliseconds.
pub const LINK_TIMEOUT_MS: u64 = 500;

/// Joystick control packet.
///
/// Wire layout (little-endian): `[seq_lo][seq_hi][x][y][buttons][reserved; 3]`.
/// There is no checksum: ESP-NOW already carries a link-layer CRC, and the
/// sequence number guards against stale and duplicate frames.
#[derive(Copy, Clone, PartialEq, Eq, Debug)]
pub struct ControlPacket {
    pub sequence: u16,
    pub x: u8,
    pub y: u8,
    pub buttons: u8,
    pub reserved: [u8; 3],
}

/// Errors from decoding a [`ControlPacket`].
#[derive(Copy, Clone, PartialEq, Eq, Debug)]
pub enum PacketError {
    /// The body was not exactly [`CONTROL_PACKET_LEN`] bytes.
    InvalidLength,
}

/// Low byte of a 16-bit value.
pub open spec fn lo_byte(v: u16) -> u8 {
    (v & 0xff) as u8
}

/// High byte of a 16-bit value.
pub open spec fn hi_byte(v: u16) -> u8 {
    (v >> 8) as u8
}

/// The 16-bit value whose little-endian bytes are `lo`, `hi`.
pub open spec fn u16_from_le(lo: u8, hi: u8) -> u16 {
    (lo as u16) | ((hi as u16) << 8)
}

/// The wire bytes of a packet.
pub open spec fn packet_bytes(p: ControlPacket) -> Seq<u8> {
    seq![
        lo_byte(p.sequence),
        hi_byte(p.sequence),
        p.x,
        p.y,
        p.buttons,
        p.reserved[0],
        p.reserved[1],
        p.reserved[2],
    ]
}

/// The packet that an 8-byte body decodes to.
pub open spec fn packet_from_bytes(s: Seq<u8>) -> ControlPacket
    recommends
        s.len() == CONTROL_PACKET_LEN,
{
    ControlPacket {
        sequence: u16_from_le(s[0], s[1]),
        x: s[2],
        y: s[3],
        buttons: s[4],
        reserved: [s[5], s[6], s[7]],
    }
}

/// `candidate` is newer than `last` under 16-bit wrap-around: the forward
/// distance from `last` to `candidate` lies in `(0, 0x8000)`.
pub open spec fn newer_sequence(last: u16, candidate: u16) -> bool {
    let delta = (candidate - last) % 0x10000;
    delta != 0 && delta < 0x8000
}

pub proof fn lemma_u16_le_roundtrip(v: u16)
    ensures
        u16_from_le(lo_byte(v), hi_byte(v)) == v,
{
    assert(((v & 0xff) as u8) as u16 | ((((v >> 8) as u8) as u16) << 8) == v) by (bit_vector);
}

pub proof fn lemma_u16_le_bytes_roundtrip(lo: u8, hi: u8)
    ensures
        lo_byte(u16_from_le(lo, hi)) == lo,
        hi_byte(u16_from_le(lo, hi)) == hi,
{
    assert((((lo as u16) | ((hi as u16) << 8)) & 0xff) as u8 == lo) by (bit_vector);
    assert((((lo as u16) | ((hi as u16) << 8)) >> 8) as u8 == hi) by (bit_vector);
}

impl ControlPacket {
    pub const BUTTON_JOY: u8 = 1;
    pub const BUTTON_C: u8 = 2;
    pub const BUTTON_A: u8 = 4;
    pub const BUTTON_B: u8 = 8;
    pub const BUTTON_D: u8 = 16;

    /// A packet with the given fields and zeroed reserved bytes.
    pub fn new(sequence: u16, x: u8, y: u8, buttons: u8) -> (p: Self)
        ensures
            p == (ControlPacket { sequence, x, y, buttons, reserved: [0u8, 0u8, 0u8] }),
    {
        ControlPacket { sequence, x, y, buttons, reserved: [0, 0, 0] }
    }

    /// The 8 wire bytes of this packet.
    pub fn to_bytes(self) -> (b: [u8; CONTROL_PACKET_LEN])
        ensures
            b@ == packet_bytes(self),
    {
        let lo = (self.sequence & 0xff) as u8;
        let hi = (self.sequence >> 8) as u8;
        let b = [lo, hi, self.x, self.y, self.buttons, self.reserved[0], self.reserved[1], self.reserved[2]];
        assert(b@ =~= packet_bytes(self));
        b
    }

    /// Decode a packet body; it must be exactly [`CONTROL_PACKET_LEN`] bytes.
    pub fn from_bytes(bytes: &[u8]) -> (r: Result<Self, PacketError>)
        ensures
            bytes@.len() != CONTROL_PACKET_LEN ==> r == Err::<ControlPacket, PacketError>(PacketError::InvalidLength),
            bytes@.len() == CONTROL_PACKET_LEN ==> r == Ok::<ControlPacket, PacketError>(packet_from_bytes(bytes@)),
    {
        if bytes.len() != CONTROL_PACKET_LEN {
            return Err(PacketError::InvalidLength);
        }
        let sequence = (bytes[0] as u16) | ((bytes[1] as u16) << 8);
        Ok(ControlPacket {
            sequence,
            x: bytes[2],
            y: bytes[3],
            buttons: bytes[4],
            reserved: [bytes[5], bytes[6], bytes[7]],
        })
    }
}

/// Whether `candidate` is a fresh sequence number after `last` (see
/// [`newer_sequence`]): handles the `65535 -> 0` wrap and rejects duplicates
/// and stale numbers.
pub fn is_newer_sequence(last_sequence: u16, candidate: u16) -> (b: bool)
    ensures
        b == newer_sequence(last_sequence, candidate),
{
    let delta = candidate.wrapping_sub(last_sequence);
    delta != 0 && delta < 0x8000
}

/// The wire layout of a packet: the sequence number little-endian in the
/// first two bytes, then X, Y, the button byte and the three reserved bytes,
/// eight bytes in all.
pub proof fn lemma_packet_wire_layout(p: ControlPacket)
    ensures
        packet_bytes(p).len() == 8,
        packet_bytes(p)[0] as int + 256 * (packet_bytes(p)[1] as int) == p.sequence as int,
        packet_bytes(p)[2] == p.x,
        packet_bytes(p)[3] == p.y,
        packet_bytes(p)[4] == p.buttons,
        packet_bytes(p)[5] == p.reserved[0],
        packet_bytes(p)[6] == p.reserved[1],
        packet_bytes(p)[7] == p.reserved[2],
{
    let v = p.sequence;
    assert(((v & 0xff) as u8) as int + 256 * (((v >> 8) as u8) as int) == v as int) by (bit_vector);
}

/// Decoding the bytes of a packet gives the packet back.
pub proof fn lemma_packet_roundtrip(p: ControlPacket)
    ensures
        packet_bytes(p).len() == CONTROL_PACKET_LEN,
        packet_from_bytes(packet_bytes(p)) == p,
{
    lemma_u16_le_roundtrip(p.sequence);
    let q = packet_from_bytes(packet_bytes(p));
    assert(q.reserved =~= p.reserved);
}

/// Encoding the packet decoded from an 8-byte body gives the body back.
pub proof fn lemma_bytes_roundtrip(s: Seq<u8>)
    requires
        s.len() == CONTROL_PACKET_LEN,
    ensures
        packet_bytes(packet_from_bytes(s)) == s,
{
    lemma_u16_le_bytes_roundtrip(s[0], s[1]);
    assert(packet_bytes(packet_from_bytes(s)) =~= s);
}

/// A sequence number is never newer than itself, and of two distinct
/// numbers at most one is newer than the other.
pub proof fn lemma_newer_sequence_is_strict(a: u16, b: u16)
    ensures
        !newer_sequence(a, a),
        newer_sequence(a, b) ==> !newer_sequence(b, a),
{
}

} // verus!
