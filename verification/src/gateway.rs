//! Decisions both boards share while draining the radio: which tunnel frames
//! to trust, relaying the peer's telemetry to USB, and the pairing handshake.
use vstd::prelude::*;
use crate::espnow::{from_transport, last_peer_request_ok, peer_requested_once, EspNowLink, EspNowTransport};
use crate::host_proto::{relay_bytes, relay_from_slice, BoardKind, BoardToHost, RELAY_PAYLOAD_MAX};

verus! {

/// Whether two MAC addresses are equal.
pub fn same_mac(a: &[u8; 6], b: &[u8; 6]) -> (eq: bool)
    ensures
        eq == (*a == *b),
{
    let mut i: usize = 0;
    while i < 6
        invariant
            0 <= i <= 6,
            forall|j: int| 0 <= j < i ==> a[j] == b[j],
        decreases 6 - i,
    {
        if a[i] != b[i] {
            return false;
        }
        i = i + 1;
    }
    assert(*a =~= *b);
    true
}

/// Whether a frame from `peer` comes from the paired peer.
pub fn from_paired_peer<T: EspNowTransport>(link: &EspNowLink<T>, peer: &[u8; 6]) -> (b: bool)
    ensures
        b == (link.spec_peer() == Some(*peer)),
{
    match link.paired_peer() {
        Some(p) => same_mac(&p, peer),
        None => false,
    }
}

/// The USB message that relays tunnelled telemetry from the paired peer,
/// tagged with the board that produced it. Telemetry from any other device,
/// or longer than a relay payload holds, is dropped.
pub fn relay_peer_telemetry<T: EspNowTransport>(
    link: &EspNowLink<T>,
    peer: &[u8; 6],
    bytes: &[u8],
    source: BoardKind,
) -> (msg: Option<BoardToHost>)
    ensures
        (link.spec_peer() == Some(*peer) && bytes@.len() <= RELAY_PAYLOAD_MAX) <==> msg is Some,
        msg matches Some(m) ==> m matches BoardToHost::FromPeer { source: s, payload }
            && s == source && relay_bytes(payload) == bytes@,
{
    if !from_paired_peer(link, peer) {
        return None;
    }
    match relay_from_slice(bytes) {
        Ok(payload) => Some(BoardToHost::FromPeer { source, payload }),
        Err(()) => None,
    }
}

/// The tunnelled command bytes to execute: those of a frame from the paired
/// peer, cut to at most [`RELAY_PAYLOAD_MAX`] bytes; `None` for a frame from
/// any other device.
pub fn accept_tunnel_cmd<'a, T: EspNowTransport>(link: &EspNowLink<T>, peer: &[u8; 6], bytes: &'a [u8]) -> (cmd: Option<&'a [u8]>)
    ensures
        (link.spec_peer() == Some(*peer)) <==> cmd is Some,
        cmd matches Some(c) ==> c@ == bytes@.take(
            if bytes@.len() < RELAY_PAYLOAD_MAX { bytes@.len() as int } else { RELAY_PAYLOAD_MAX as int },
        ),
{
    if !from_paired_peer(link, peer) {
        return None;
    }
    let n = if bytes.len() < RELAY_PAYLOAD_MAX { bytes.len() } else { RELAY_PAYLOAD_MAX };
    Some(&bytes[0..n])
}

/// Handle a pairing acknowledgement: while unpaired, ask the transport to
/// register the sender once, and when that succeeds learn it as the peer and
/// return its MAC for the caller to persist (always so when the transport
/// already has it registered). Once paired, further
/// acknowledgements are ignored so a foreign board cannot hijack the pairing.
pub fn on_pair_ack<T: EspNowTransport>(link: &mut EspNowLink<T>, peer: [u8; 6]) -> (persist: Option<[u8; 6]>)
    ensures
        final(link).spec_last_sequence() == old(link).spec_last_sequence(),
        final(link).spec_sent() == old(link).spec_sent(),
        old(link).spec_peer() is Some ==> persist is None && *final(link) == *old(link),
        old(link).spec_peer() is None && old(link).spec_transport().peers().contains(peer)
            ==> persist == Some(peer),
        old(link).spec_peer() is None ==> {
            &&& peer_requested_once(
                *old(link),
                *final(link),
                peer,
                from_transport(final(link).spec_transport().peer_requests().last().1),
            )
            &&& (persist is Some <==> last_peer_request_ok(*final(link)))
        },
        old(link).spec_peer() is None ==> {
            &&& persist is Some ==> persist == Some(peer) && final(link).spec_peer() == Some(peer)
                && final(link).spec_transport().peers() == old(link).spec_transport().peers().insert(peer)
            &&& persist is None ==> final(link).spec_peer() is None
                && final(link).spec_transport().peers() == old(link).spec_transport().peers()
        },
{
    if link.is_paired() {
        return None;
    }
    match link.learn_peer(peer) {
        Ok(()) => Some(peer),
        Err(_) => None,
    }
}

} // verus!
