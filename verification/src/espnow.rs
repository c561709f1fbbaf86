//! Bidirectional ESP-NOW link shared by controller and vehicle.
//!
//! [`EspNowLink`] wraps an [`EspNowTransport`] and multiplexes three concerns
//! over one radio using the [`crate::frame`] envelope:
//!
//! - the periodic **control** stream (sequence-checked, drives the fail-safe),
//! - a bidirectional **tunnel** that relays USB host-protocol bytes between the
//!   two boards,
//! - the **pairing** handshake that swaps MAC addresses so both boards can move
//!   from broadcast to unicast.
//!
//! The link is transport-agnostic: the concrete radio adapter lives with each
//! board, and tests drive the link through a mock transport.
use vstd::prelude::*;
use crate::frame::{
    decode_frame, decode_spec, encode_control, encode_frame, frame_bytes, Frame, FrameError,
    FrameKind, FrameView, MAX_ENCODED_FRAME,
};
use crate::protocol::{
    is_newer_sequence, newer_sequence, packet_bytes, packet_from_bytes, ControlPacket, PacketError,
    CONTROL_PACKET_LEN,
};

verus! {

/// The ESP-NOW broadcast address, used only until a peer is paired.
pub const BROADCAST_ADDRESS: [u8; 6] = [0xff, 0xff, 0xff, 0xff, 0xff, 0xff];

/// Metadata of one received ESP-NOW frame.
#[derive(Copy, Clone, PartialEq, Eq, Debug)]
pub struct ReceivedMeta {
    /// Source MAC of the frame (the sender).
    pub peer_mac: [u8; 6],
    /// Destination MAC. Equals [`BROADCAST_ADDRESS`] for broadcast frames, which
    /// signals the sender has not paired yet and lets the receiver reply.
    pub dst_mac: [u8; 6],
    /// Number of payload bytes written to the receive buffer.
    pub len: usize,
    pub rssi_dbm: Option<i8>,
}

/// A fresh control packet together with the metadata of its frame.
#[derive(Copy, Clone, PartialEq, Eq, Debug)]
pub struct ReceivedControl {
    pub packet: ControlPacket,
    pub meta: ReceivedMeta,
}

/// The metadata of a queued frame as delivered into a buffer of `buf_len`
/// bytes: as much of the payload as fits is copied.
pub open spec fn delivered_meta(frame: (Seq<u8>, ReceivedMeta), buf_len: nat) -> ReceivedMeta {
    ReceivedMeta {
        len: (if frame.0.len() < buf_len { frame.0.len() } else { buf_len }) as usize,
        ..frame.1
    }
}

/// Abstraction over the raw ESP-NOW transport: send to one MAC, receive from
/// any, plus the peer list that unicast needs. Implemented by a board-specific
/// adapter over the real radio, and by a mock in tests.
///
/// The contracts speak of three models an implementation keeps: the frames
/// handed to [`send`](EspNowTransport::send) so far, with their destinations,
/// the set of registered peers, and the queue of received frames.
pub trait EspNowTransport {
    type Error;

    /// Every `(payload, destination)` handed to `send`, oldest first.
    closed spec fn sent(&self) -> Seq<(Seq<u8>, [u8; 6])> {
        Seq::empty()
    }

    /// The registered unicast peers.
    closed spec fn peers(&self) -> Set<[u8; 6]> {
        Set::empty()
    }

    /// What each call of `send` returned, oldest first.
    closed spec fn send_results(&self) -> Seq<Result<(), Self::Error>> {
        Seq::empty()
    }

    /// Each call of `add_peer`, with the MAC asked for and what it returned,
    /// oldest first.
    closed spec fn peer_requests(&self) -> Seq<([u8; 6], Result<(), Self::Error>)> {
        Seq::empty()
    }

    /// What each call of `receive` returned, oldest first.
    closed spec fn receive_results(&self) -> Seq<Result<Option<ReceivedMeta>, Self::Error>> {
        Seq::empty()
    }

    /// Transmit `payload` to `peer_mac`.
    fn send(&mut self, peer_mac: [u8; 6], payload: &[u8]) -> (r: Result<(), Self::Error>)
        ensures
            final(self).sent() == old(self).sent().push((payload@, peer_mac)),
            final(self).peers() == old(self).peers(),
            final(self).send_results() == old(self).send_results().push(r),
            final(self).peer_requests() == old(self).peer_requests(),
            final(self).receive_results() == old(self).receive_results(),
    ;

    /// The frames waiting in the receive queue, oldest first, each with the
    /// metadata it arrived with (whose `len` is replaced on delivery by the
    /// number of bytes copied out).
    closed spec fn inbox(&self) -> Seq<(Seq<u8>, ReceivedMeta)> {
        Seq::empty()
    }

    /// Poll for one received frame, copying as much of its payload as fits
    /// into the front of `rx_buffer`; `Ok(None)` when the receive queue is
    /// empty. Otherwise the oldest queued frame is delivered and leaves the
    /// queue, unless the transport fails (which it may also do on an empty
    /// queue).
    fn receive(&mut self, rx_buffer: &mut [u8]) -> (r: Result<Option<ReceivedMeta>, Self::Error>)
        ensures
            final(rx_buffer)@.len() == old(rx_buffer)@.len(),
            r matches Ok(Some(m)) ==> m.len <= final(rx_buffer)@.len(),
            final(self).sent() == old(self).sent(),
            final(self).peers() == old(self).peers(),
            final(self).receive_results() == old(self).receive_results().push(r),
            final(self).send_results() == old(self).send_results(),
            final(self).peer_requests() == old(self).peer_requests(),
            old(self).inbox().len() == 0 ==> !(r matches Ok(Some(_))),
            old(self).inbox().len() > 0 ==> !(r matches Ok(None)),
            r matches Ok(None) ==> final(self).inbox() == old(self).inbox(),
            r matches Ok(Some(_)) ==> final(self).inbox() == old(self).inbox().drop_first(),
            r matches Ok(Some(m)) ==> old(self).inbox().len() > 0
                && m == delivered_meta(old(self).inbox()[0], old(rx_buffer)@.len())
                && final(rx_buffer)@.take(m.len as int) == old(self).inbox()[0].0.take(m.len as int),
    ;

    /// Register `mac` as a unicast peer. Idempotent: adding an already-known
    /// peer succeeds.
    fn add_peer(&mut self, mac: [u8; 6]) -> (r: Result<(), Self::Error>)
        ensures
            final(self).sent() == old(self).sent(),
            final(self).peer_requests() == old(self).peer_requests().push((mac, r)),
            final(self).send_results() == old(self).send_results(),
            final(self).receive_results() == old(self).receive_results(),
            old(self).peers().contains(mac) ==> r is Ok,
            r is Ok ==> final(self).peers() == old(self).peers().insert(mac),
            r is Err ==> final(self).peers() == old(self).peers(),
    ;

    /// Whether `mac` is currently registered as a peer.
    fn peer_exists(&self, mac: [u8; 6]) -> (b: bool)
        ensures
            b == self.peers().contains(mac),
    ;
}

/// Errors from the ESP-NOW link layer.
#[derive(Copy, Clone, PartialEq, Eq, Debug)]
pub enum LinkError<E> {
    /// Underlying transport error.
    Transport(E),
    /// A control body failed to parse as a [`ControlPacket`].
    Packet(PacketError),
    /// A control packet was a duplicate or older than the last accepted one.
    StaleSequence,
    /// The frame envelope was malformed, or a frame did not fit the send buffer.
    Frame(FrameError),
    /// A unicast-only frame (tunnel / pair-ack) was requested while unpaired.
    NotPaired,
}

/// A decoded, demultiplexed inbound frame. Tunnel bodies borrow from the
/// caller's receive buffer; `Control` is already parsed and sequence-checked.
#[derive(Copy, Clone, PartialEq, Eq, Debug)]
pub enum Inbound<'a> {
    /// Fresh control packet — the vehicle actuates motors on this.
    Control(ReceivedControl),
    /// Tunnelled host→board command bytes for this board to execute locally.
    TunnelCmd { peer: [u8; 6], bytes: &'a [u8] },
    /// Tunnelled board→host telemetry bytes for this (gateway) board to forward.
    TunnelEvt { peer: [u8; 6], bytes: &'a [u8] },
    /// Pairing acknowledgement announcing the peer's MAC.
    PairAck { peer: [u8; 6] },
}

/// What an [`Inbound`] holds, with tunnel bodies as byte sequences.
pub enum InboundView {
    Control(ReceivedControl),
    TunnelCmd { peer: [u8; 6], bytes: Seq<u8> },
    TunnelEvt { peer: [u8; 6], bytes: Seq<u8> },
    PairAck { peer: [u8; 6] },
}

impl<'a> View for Inbound<'a> {
    type V = InboundView;

    open spec fn view(&self) -> InboundView {
        match *self {
            Inbound::Control(c) => InboundView::Control(c),
            Inbound::TunnelCmd { peer, bytes } => InboundView::TunnelCmd { peer, bytes: bytes@ },
            Inbound::TunnelEvt { peer, bytes } => InboundView::TunnelEvt { peer, bytes: bytes@ },
            Inbound::PairAck { peer } => InboundView::PairAck { peer },
        }
    }
}

/// The result of accepting one received frame: the demultiplexed frame or the
/// error it raises, and the last accepted control sequence afterwards.
///
/// Only control frames are sequence-checked and advance the sequence; tunnel
/// and pairing frames bypass freshness.
pub open spec fn accept_outcome<E>(meta: ReceivedMeta, payload: Seq<u8>, last: Option<u16>) -> (Result<InboundView, LinkError<E>>, Option<u16>) {
    match decode_spec(payload) {
        Err(e) => (Err(LinkError::Frame(e)), last),
        Ok(FrameView::Control(body)) => {
            let packet = packet_from_bytes(body);
            if last is Some && !newer_sequence(last->0, packet.sequence) {
                (Err(LinkError::StaleSequence), last)
            } else {
                (Ok(InboundView::Control(ReceivedControl { packet, meta })), Some(packet.sequence))
            }
        },
        Ok(FrameView::TunnelCmd(bytes)) => (Ok(InboundView::TunnelCmd { peer: meta.peer_mac, bytes }), last),
        Ok(FrameView::TunnelEvt(bytes)) => (Ok(InboundView::TunnelEvt { peer: meta.peer_mac, bytes }), last),
        Ok(FrameView::PairAck) => (Ok(InboundView::PairAck { peer: meta.peer_mac }), last),
    }
}

/// A control packet delivered from a received frame is exactly what the
/// frame carries: the frame is a `Control` frame of the packet length, the
/// packet re-encodes to the frame's body byte for byte (so its sequence,
/// axes, buttons and reserved bytes are the received ones), the metadata is
/// the frame's, the packet is fresh after the last accepted one, and it
/// becomes the last accepted.
pub proof fn lemma_delivered_control_is_its_body<E>(meta: ReceivedMeta, payload: Seq<u8>, last: Option<u16>)
    ensures
        accept_outcome::<E>(meta, payload, last).0 matches Ok(InboundView::Control(rc)) ==> {
            &&& payload.len() == 1 + CONTROL_PACKET_LEN
            &&& payload[0] == 0x01u8
            &&& packet_bytes(rc.packet) == payload.skip(1)
            &&& rc.meta == meta
            &&& (last matches Some(l) ==> newer_sequence(l, rc.packet.sequence))
            &&& accept_outcome::<E>(meta, payload, last).1 == Some(rc.packet.sequence)
        },
{
    if payload.len() == 1 + CONTROL_PACKET_LEN {
        crate::protocol::lemma_bytes_roundtrip(payload.skip(1));
    }
}

/// A control frame, once accepted, is refused as stale when it arrives again
/// (a replay or a duplicate), whatever its metadata.
pub proof fn lemma_replayed_control_is_stale<E>(meta: ReceivedMeta, again: ReceivedMeta, payload: Seq<u8>, last: Option<u16>)
    requires
        decode_spec(payload) matches Ok(FrameView::Control(_)),
        accept_outcome::<E>(meta, payload, last).0 is Ok,
    ensures
        accept_outcome::<E>(again, payload, accept_outcome::<E>(meta, payload, last).1).0
            == Err::<InboundView, LinkError<E>>(LinkError::StaleSequence),
{
}

/// Tunnel and pairing frames, and frames that fail to decode, leave the
/// last accepted control sequence as it was; a control frame either is
/// refused as stale with the sequence unchanged, or is fresh and becomes
/// the last accepted one.
pub proof fn lemma_only_fresh_control_advances<E>(meta: ReceivedMeta, payload: Seq<u8>, last: Option<u16>)
    ensures
        !(decode_spec(payload) matches Ok(FrameView::Control(_)))
            ==> accept_outcome::<E>(meta, payload, last).1 == last,
        decode_spec(payload) matches Ok(FrameView::Control(body)) ==> {
            let seq = packet_from_bytes(body).sequence;
            ||| (accept_outcome::<E>(meta, payload, last).0 == Err::<InboundView, LinkError<E>>(LinkError::StaleSequence)
                    && accept_outcome::<E>(meta, payload, last).1 == last)
            ||| ((last is None || newer_sequence(last->0, seq))
                    && accept_outcome::<E>(meta, payload, last).1 == Some(seq))
        },
{
}

/// A link result with the inbound frame taken by its view.
pub open spec fn inbound_result_view<'a, E>(r: Result<Inbound<'a>, LinkError<E>>) -> Result<InboundView, LinkError<E>> {
    match r {
        Ok(i) => Ok(i@),
        Err(e) => Err(e),
    }
}

/// A transport result as the link reports it: success, or the transport's
/// own error wrapped in [`LinkError::Transport`].
pub open spec fn from_transport<E>(x: Result<(), E>) -> Result<(), LinkError<E>> {
    match x {
        Ok(()) => Ok(()),
        Err(e) => Err(LinkError::Transport(e)),
    }
}

/// Between `before` and `after` the link made exactly one transport `send`,
/// and `r` is what that call returned, as the link reports it; no peer was
/// requested and nothing was received.
pub open spec fn sent_once<T: EspNowTransport>(before: EspNowLink<T>, after: EspNowLink<T>, r: Result<(), LinkError<T::Error>>) -> bool {
    let results = after.spec_transport().send_results();
    &&& results.len() > 0
    &&& results == before.spec_transport().send_results().push(results.last())
    &&& r == from_transport(results.last())
    &&& after.spec_transport().peer_requests() == before.spec_transport().peer_requests()
    &&& after.spec_transport().receive_results() == before.spec_transport().receive_results()
}

/// Between `before` and `after` the link made exactly one transport
/// `add_peer`, for `mac`, and `r` is what that call returned, as the link
/// reports it; nothing was sent or received.
pub open spec fn peer_requested_once<T: EspNowTransport>(
    before: EspNowLink<T>,
    after: EspNowLink<T>,
    mac: [u8; 6],
    r: Result<(), LinkError<T::Error>>,
) -> bool {
    let requests = after.spec_transport().peer_requests();
    &&& requests.len() > 0
    &&& requests == before.spec_transport().peer_requests().push(requests.last())
    &&& requests.last().0 == mac
    &&& r == from_transport(requests.last().1)
    &&& after.spec_transport().send_results() == before.spec_transport().send_results()
    &&& after.spec_transport().receive_results() == before.spec_transport().receive_results()
}

/// The transport's peer requests grew by exactly one, for `mac` (whatever
/// else the link did with the transport).
pub open spec fn peer_request_added<T: EspNowTransport>(before: EspNowLink<T>, after: EspNowLink<T>, mac: [u8; 6]) -> bool {
    let requests = after.spec_transport().peer_requests();
    &&& requests.len() > 0
    &&& requests == before.spec_transport().peer_requests().push(requests.last())
    &&& requests.last().0 == mac
}

/// Whether the transport accepted the most recent peer request.
pub open spec fn last_peer_request_ok<T: EspNowTransport>(link: EspNowLink<T>) -> bool {
    link.spec_transport().peer_requests().last().1 is Ok
}

/// Between `before` and `after` the link made no transport call that changes
/// a model: nothing sent, no peer requested, nothing received.
pub open spec fn no_transport_call<T: EspNowTransport>(before: EspNowLink<T>, after: EspNowLink<T>) -> bool {
    &&& after.spec_sent() == before.spec_sent()
    &&& after.spec_transport().send_results() == before.spec_transport().send_results()
    &&& after.spec_transport().peer_requests() == before.spec_transport().peer_requests()
    &&& after.spec_transport().receive_results() == before.spec_transport().receive_results()
}

/// Bidirectional ESP-NOW link with pairing, control, and tunnel support.
pub struct EspNowLink<T: EspNowTransport> {
    transport: T,
    paired_peer: Option<[u8; 6]>,
    last_sequence: Option<u16>,
}

impl<T: EspNowTransport> EspNowLink<T> {
    /// The wrapped transport.
    pub closed spec fn spec_transport(&self) -> T {
        self.transport
    }

    /// The paired peer MAC, if any.
    pub closed spec fn spec_peer(&self) -> Option<[u8; 6]> {
        self.paired_peer
    }

    /// The sequence number of the last accepted control packet, if any.
    pub closed spec fn spec_last_sequence(&self) -> Option<u16> {
        self.last_sequence
    }

    /// The frames handed to the transport so far.
    pub open spec fn spec_sent(&self) -> Seq<(Seq<u8>, [u8; 6])> {
        self.spec_transport().sent()
    }

    /// Destination of control frames: the paired peer, or broadcast while unpaired.
    pub open spec fn control_destination(&self) -> [u8; 6] {
        match self.spec_peer() {
            Some(mac) => mac,
            None => BROADCAST_ADDRESS,
        }
    }

    /// Create an unpaired link.
    pub fn new(transport: T) -> (link: Self)
        ensures
            link.spec_transport() == transport,
            link.spec_peer() == None::<[u8; 6]>,
            link.spec_last_sequence() == None::<u16>,
    {
        EspNowLink { transport, paired_peer: None, last_sequence: None }
    }

    /// The wrapped transport.
    pub fn transport(&self) -> (t: &T)
        ensures
            *t == self.spec_transport(),
    {
        &self.transport
    }

    /// The currently paired peer MAC, if any.
    pub fn paired_peer(&self) -> (p: Option<[u8; 6]>)
        ensures
            p == self.spec_peer(),
    {
        self.paired_peer
    }

    /// Whether a peer has been paired (unicast is available).
    pub fn is_paired(&self) -> (b: bool)
        ensures
            b == self.spec_peer() is Some,
    {
        self.paired_peer.is_some()
    }

    /// Register `mac` as the paired peer and add it to the transport peer list.
    /// Called when a peer MAC is learned from a control packet, a `PairAck`, or
    /// persistent storage at boot. Succeeds whenever the transport already
    /// knows `mac`; on a transport error nothing changes.
    pub fn learn_peer(&mut self, mac: [u8; 6]) -> (r: Result<(), LinkError<T::Error>>)
        ensures
            final(self).spec_last_sequence() == old(self).spec_last_sequence(),
            final(self).spec_sent() == old(self).spec_sent(),
            peer_requested_once(*old(self), *final(self), mac, r),
            old(self).spec_transport().peers().contains(mac) ==> r is Ok,
            r is Ok ==> {
                &&& final(self).spec_peer() == Some(mac)
                &&& final(self).spec_transport().peers() == old(self).spec_transport().peers().insert(mac)
            },
            r is Err ==> {
                &&& r matches Err(LinkError::Transport(_))
                &&& final(self).spec_peer() == old(self).spec_peer()
                &&& final(self).spec_transport().peers() == old(self).spec_transport().peers()
            },
    {
        match self.transport.add_peer(mac) {
            Ok(()) => {
                self.paired_peer = Some(mac);
                Ok(())
            },
            Err(e) => Err(LinkError::Transport(e)),
        }
    }

    /// Forget the paired peer and reset sequence tracking (re-pairing). Control
    /// sends fall back to broadcast until a new peer is learned.
    pub fn reset_pairing(&mut self)
        ensures
            final(self).spec_peer() == None::<[u8; 6]>,
            final(self).spec_last_sequence() == None::<u16>,
            final(self).spec_transport() == old(self).spec_transport(),
    {
        self.paired_peer = None;
        self.last_sequence = None;
    }

    /// Reset sequence tracking so the next control packet is always accepted.
    /// Used by the vehicle on link timeout.
    pub fn reset_sequence(&mut self)
        ensures
            final(self).spec_peer() == old(self).spec_peer(),
            final(self).spec_last_sequence() == None::<u16>,
            final(self).spec_transport() == old(self).spec_transport(),
    {
        self.last_sequence = None;
    }

    // ── Sending ───────────────────────────────────────────────────────────────

    fn send_frame(&mut self, dst: [u8; 6], kind: FrameKind, body: &[u8]) -> (r: Result<(), LinkError<T::Error>>)
        ensures
            final(self).spec_peer() == old(self).spec_peer(),
            final(self).spec_last_sequence() == old(self).spec_last_sequence(),
            final(self).spec_transport().peers() == old(self).spec_transport().peers(),
            body@.len() < MAX_ENCODED_FRAME ==> {
                &&& final(self).spec_sent() == old(self).spec_sent().push((frame_bytes(kind, body@), dst))
                &&& sent_once(*old(self), *final(self), r)
            },
            body@.len() >= MAX_ENCODED_FRAME ==> {
                &&& no_transport_call(*old(self), *final(self))
                &&& r == Err::<(), LinkError<T::Error>>(LinkError::Frame(FrameError::BufferTooSmall))
            },
    {
        let mut buf = [0u8; MAX_ENCODED_FRAME];
        let n = match encode_frame(kind, body, &mut buf) {
            Ok(n) => n,
            Err(e) => return Err(LinkError::Frame(e)),
        };
        let frame = &buf[0..n];
        assert(frame@ =~= frame_bytes(kind, body@));
        match self.transport.send(dst, frame) {
            Ok(()) => Ok(()),
            Err(e) => Err(LinkError::Transport(e)),
        }
    }

    /// Send a control packet: unicast to the paired peer, or broadcast while
    /// still unpaired (pairing bootstrap).
    pub fn send_control(&mut self, packet: ControlPacket) -> (r: Result<(), LinkError<T::Error>>)
        ensures
            final(self).spec_peer() == old(self).spec_peer(),
            final(self).spec_last_sequence() == old(self).spec_last_sequence(),
            final(self).spec_transport().peers() == old(self).spec_transport().peers(),
            final(self).spec_sent() == old(self).spec_sent().push(
                (frame_bytes(FrameKind::Control, packet_bytes(packet)), old(self).control_destination()),
            ),
            sent_once(*old(self), *final(self), r),
    {
        let dst = match self.paired_peer {
            Some(mac) => mac,
            None => BROADCAST_ADDRESS,
        };
        let mut buf = [0u8; MAX_ENCODED_FRAME];
        let bytes = packet.to_bytes();
        let n = match encode_control(&bytes, &mut buf) {
            Ok(n) => n,
            Err(e) => return Err(LinkError::Frame(e)),
        };
        let frame = &buf[0..n];
        assert(frame@ =~= frame_bytes(FrameKind::Control, packet_bytes(packet)));
        match self.transport.send(dst, frame) {
            Ok(()) => Ok(()),
            Err(e) => Err(LinkError::Transport(e)),
        }
    }

    /// Relay host→board command bytes to the paired peer (gateway → remote).
    pub fn send_tunnel_cmd(&mut self, bytes: &[u8]) -> (r: Result<(), LinkError<T::Error>>)
        ensures
            final(self).spec_peer() == old(self).spec_peer(),
            final(self).spec_last_sequence() == old(self).spec_last_sequence(),
            final(self).spec_transport().peers() == old(self).spec_transport().peers(),
            old(self).spec_peer() is None ==> {
                &&& r == Err::<(), LinkError<T::Error>>(LinkError::NotPaired)
                &&& no_transport_call(*old(self), *final(self))
            },
            old(self).spec_peer() is Some && bytes@.len() >= MAX_ENCODED_FRAME ==> {
                &&& r == Err::<(), LinkError<T::Error>>(LinkError::Frame(FrameError::BufferTooSmall))
                &&& no_transport_call(*old(self), *final(self))
            },
            old(self).spec_peer() is Some && bytes@.len() < MAX_ENCODED_FRAME ==> {
                &&& final(self).spec_sent() == old(self).spec_sent().push(
                    (frame_bytes(FrameKind::TunnelCmd, bytes@), old(self).spec_peer()->0),
                )
                &&& sent_once(*old(self), *final(self), r)
            },
    {
        let dst = match self.paired_peer {
            Some(mac) => mac,
            None => return Err(LinkError::NotPaired),
        };
        self.send_frame(dst, FrameKind::TunnelCmd, bytes)
    }

    /// Send board→host telemetry bytes to the paired peer (remote → gateway).
    pub fn send_tunnel_evt(&mut self, bytes: &[u8]) -> (r: Result<(), LinkError<T::Error>>)
        ensures
            final(self).spec_peer() == old(self).spec_peer(),
            final(self).spec_last_sequence() == old(self).spec_last_sequence(),
            final(self).spec_transport().peers() == old(self).spec_transport().peers(),
            old(self).spec_peer() is None ==> {
                &&& r == Err::<(), LinkError<T::Error>>(LinkError::NotPaired)
                &&& no_transport_call(*old(self), *final(self))
            },
            old(self).spec_peer() is Some && bytes@.len() >= MAX_ENCODED_FRAME ==> {
                &&& r == Err::<(), LinkError<T::Error>>(LinkError::Frame(FrameError::BufferTooSmall))
                &&& no_transport_call(*old(self), *final(self))
            },
            old(self).spec_peer() is Some && bytes@.len() < MAX_ENCODED_FRAME ==> {
                &&& final(self).spec_sent() == old(self).spec_sent().push(
                    (frame_bytes(FrameKind::TunnelEvt, bytes@), old(self).spec_peer()->0),
                )
                &&& sent_once(*old(self), *final(self), r)
            },
    {
        let dst = match self.paired_peer {
            Some(mac) => mac,
            None => return Err(LinkError::NotPaired),
        };
        self.send_frame(dst, FrameKind::TunnelEvt, bytes)
    }

    /// Send an empty pairing acknowledgement to the paired peer, completing the
    /// handshake. The peer learns our MAC from the frame's source address.
    pub fn send_pair_ack(&mut self) -> (r: Result<(), LinkError<T::Error>>)
        ensures
            final(self).spec_peer() == old(self).spec_peer(),
            final(self).spec_last_sequence() == old(self).spec_last_sequence(),
            final(self).spec_transport().peers() == old(self).spec_transport().peers(),
            old(self).spec_peer() is None ==> {
                &&& r == Err::<(), LinkError<T::Error>>(LinkError::NotPaired)
                &&& no_transport_call(*old(self), *final(self))
            },
            old(self).spec_peer() is Some ==> {
                &&& final(self).spec_sent() == old(self).spec_sent().push(
                    (frame_bytes(FrameKind::PairAck, Seq::<u8>::empty()), old(self).spec_peer()->0),
                )
                &&& sent_once(*old(self), *final(self), r)
            },
    {
        let dst = match self.paired_peer {
            Some(mac) => mac,
            None => return Err(LinkError::NotPaired),
        };
        let empty: [u8; 0] = [];
        assert(empty@ =~= Seq::<u8>::empty());
        self.send_frame(dst, FrameKind::PairAck, empty.as_slice())
    }

    // ── Receiving ─────────────────────────────────────────────────────────────

    /// Demultiplex one received payload `buf` with metadata `meta`, as
    /// [`try_receive`](EspNowLink::try_receive) does once the transport has
    /// delivered a frame. Only control frames are sequence-checked, and only
    /// a fresh control packet advances the last accepted sequence.
    pub fn accept_frame<'b>(&mut self, meta: ReceivedMeta, buf: &'b [u8]) -> (r: Result<Inbound<'b>, LinkError<T::Error>>)
        ensures
            final(self).spec_peer() == old(self).spec_peer(),
            final(self).spec_transport() == old(self).spec_transport(),
            (inbound_result_view(r), final(self).spec_last_sequence())
                == accept_outcome::<T::Error>(meta, buf@, old(self).spec_last_sequence()),
            r matches Ok(Inbound::Control(rc)) ==> (packet_bytes(rc.packet) == buf@.skip(1) && rc.meta == meta),
    {
        proof {
            lemma_delivered_control_is_its_body::<T::Error>(meta, buf@, old(self).spec_last_sequence());
        }
        let frame = match decode_frame(buf) {
            Ok(f) => f,
            Err(e) => return Err(LinkError::Frame(e)),
        };
        match frame {
            Frame::Control(body) => {
                let packet = match ControlPacket::from_bytes(body) {
                    Ok(p) => p,
                    Err(e) => return Err(LinkError::Packet(e)),
                };
                if let Some(last) = self.last_sequence {
                    if !is_newer_sequence(last, packet.sequence) {
                        return Err(LinkError::StaleSequence);
                    }
                }
                self.last_sequence = Some(packet.sequence);
                Ok(Inbound::Control(ReceivedControl { packet, meta }))
            },
            Frame::TunnelCmd(bytes) => Ok(Inbound::TunnelCmd { peer: meta.peer_mac, bytes }),
            Frame::TunnelEvt(bytes) => Ok(Inbound::TunnelEvt { peer: meta.peer_mac, bytes }),
            Frame::PairAck => Ok(Inbound::PairAck { peer: meta.peer_mac }),
        }
    }

    /// Poll for one inbound frame and demultiplex it.
    ///
    /// `Ok(None)` when the receive queue is empty. Otherwise the oldest
    /// queued frame, as far as it fits in `rx_buffer`, is handled as by
    /// [`accept_frame`](EspNowLink::accept_frame), unless the transport fails.
    pub fn try_receive<'b>(&mut self, rx_buffer: &'b mut [u8]) -> (r: Result<Option<Inbound<'b>>, LinkError<T::Error>>)
        ensures
            final(rx_buffer)@.len() == old(rx_buffer)@.len(),
            final(self).spec_peer() == old(self).spec_peer(),
            final(self).spec_sent() == old(self).spec_sent(),
            final(self).spec_transport().peers() == old(self).spec_transport().peers(),
            r matches Ok(Some(Inbound::Control(rc))) ==> ({
                let front = old(self).spec_transport().inbox()[0];
                let meta = delivered_meta(front, old(rx_buffer)@.len());
                &&& old(self).spec_transport().inbox().len() > 0
                &&& packet_bytes(rc.packet) == front.0.take(meta.len as int).skip(1)
                &&& rc.meta == meta
            }),
            ({
                let results = final(self).spec_transport().receive_results();
                &&& results.len() > 0
                &&& results == old(self).spec_transport().receive_results().push(results.last())
                &&& (results.last() matches Err(e) ==> r == Err::<Option<Inbound<'b>>, LinkError<T::Error>>(LinkError::Transport(e)))
                &&& (results.last() matches Ok(None) ==> r matches Ok(None))
                &&& (results.last() matches Ok(Some(_)) ==> !(r matches Ok(None)) && !(r matches Err(LinkError::Transport(_))))
                &&& final(self).spec_transport().send_results() == old(self).spec_transport().send_results()
                &&& final(self).spec_transport().peer_requests() == old(self).spec_transport().peer_requests()
            }),
            old(self).spec_transport().inbox().len() == 0 ==> {
                &&& (r matches Ok(None)) || (r matches Err(LinkError::Transport(_)))
                &&& final(self).spec_last_sequence() == old(self).spec_last_sequence()
            },
            r matches Ok(None) ==> final(self).spec_transport().inbox() == old(self).spec_transport().inbox(),
            !(r matches Ok(None)) && !(r matches Err(LinkError::Transport(_)))
                ==> final(self).spec_transport().inbox() == old(self).spec_transport().inbox().drop_first(),
            old(self).spec_transport().inbox().len() > 0 ==> {
                let front = old(self).spec_transport().inbox()[0];
                let meta = delivered_meta(front, old(rx_buffer)@.len());
                let outcome = accept_outcome::<T::Error>(meta, front.0.take(meta.len as int), old(self).spec_last_sequence());
                match r {
                    Ok(None) => false,
                    Err(LinkError::Transport(_)) => final(self).spec_last_sequence() == old(self).spec_last_sequence(),
                    Ok(Some(i)) => outcome == (Ok::<InboundView, LinkError<T::Error>>(i@), final(self).spec_last_sequence()),
                    Err(e) => outcome == (Err::<InboundView, LinkError<T::Error>>(e), final(self).spec_last_sequence()),
                }
            },
    {
        let meta = match self.transport.receive(rx_buffer) {
            Ok(Some(meta)) => meta,
            Ok(None) => return Ok(None),
            Err(e) => return Err(LinkError::Transport(e)),
        };
        let received: &'b [u8] = rx_buffer;
        let payload = &received[0..meta.len];
        assert(payload@ =~= received@.take(meta.len as int));
        match self.accept_frame(meta, payload) {
            Ok(inbound) => Ok(Some(inbound)),
            Err(e) => Err(e),
        }
    }
}

} // verus!
