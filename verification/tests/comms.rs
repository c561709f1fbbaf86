use toycar::espnow::{
    EspNowLink, EspNowTransport, Inbound, LinkError, ReceivedMeta, BROADCAST_ADDRESS,
};
use toycar::frame::{
    decode_frame, encode_control, encode_frame, Frame, FrameError, FrameKind, MAX_ENCODED_FRAME,
};
use toycar::keepalive::{LinkState, LinkWatchdog};
use toycar::pairing::{deserialize, serialize, PAIRING_RECORD_LEN};
use toycar::protocol::{is_newer_sequence, ControlPacket, PacketError, CONTROL_PACKET_LEN};

const CTRL: [u8; 6] = [0x10, 0, 0, 0, 0, 0x01];
const VEH: [u8; 6] = [0x20, 0, 0, 0, 0, 0x02];

#[derive(Default)]
struct MockTransport {
    inbox: Vec<(Vec<u8>, [u8; 6])>,
    sent: Vec<(Vec<u8>, [u8; 6])>,
    peers: Vec<[u8; 6]>,
}

impl MockTransport {
    fn queue_control(&mut self, src: [u8; 6], packet: ControlPacket) {
        let mut buf = [0u8; MAX_ENCODED_FRAME];
        let n = encode_control(&packet.to_bytes(), &mut buf).unwrap();
        self.inbox.push((buf[..n].to_vec(), src));
    }
    fn queue_raw(&mut self, src: [u8; 6], kind: FrameKind, body: &[u8]) {
        let mut buf = [0u8; MAX_ENCODED_FRAME];
        let n = encode_frame(kind, body, &mut buf).unwrap();
        self.inbox.push((buf[..n].to_vec(), src));
    }
}

impl EspNowTransport for MockTransport {
    type Error = ();
    fn send(&mut self, peer_mac: [u8; 6], payload: &[u8]) -> Result<(), ()> {
        self.sent.push((payload.to_vec(), peer_mac));
        Ok(())
    }
    fn receive(&mut self, rx_buffer: &mut [u8]) -> Result<Option<ReceivedMeta>, ()> {
        if self.inbox.is_empty() {
            return Ok(None);
        }
        let (frame, src) = self.inbox.remove(0);
        let n = frame.len().min(rx_buffer.len());
        rx_buffer[..n].copy_from_slice(&frame[..n]);
        Ok(Some(ReceivedMeta {
            peer_mac: src,
            dst_mac: BROADCAST_ADDRESS,
            len: n,
            rssi_dbm: None,
        }))
    }
    fn add_peer(&mut self, mac: [u8; 6]) -> Result<(), ()> {
        if !self.peers.contains(&mac) {
            self.peers.push(mac);
        }
        Ok(())
    }
    fn peer_exists(&self, mac: [u8; 6]) -> bool {
        self.peers.contains(&mac)
    }
}

// ── espnow ────────────────────────────────────────────────────────────────────

#[test]
fn control_sequence_freshness_applies_only_to_control() {
    let mut t = MockTransport::default();
    t.queue_control(CTRL, ControlPacket::new(1, 0, 0, 0));
    t.queue_control(CTRL, ControlPacket::new(1, 0, 0, 0)); // duplicate → stale
    t.queue_control(CTRL, ControlPacket::new(2, 0, 0, 0)); // newer → ok
    let mut link = EspNowLink::new(t);
    let mut rx = [0u8; MAX_ENCODED_FRAME];

    assert!(matches!(
        link.try_receive(&mut rx).unwrap(),
        Some(Inbound::Control(_))
    ));
    assert_eq!(link.try_receive(&mut rx), Err(LinkError::StaleSequence));
    assert!(matches!(
        link.try_receive(&mut rx).unwrap(),
        Some(Inbound::Control(_))
    ));
}

#[test]
fn tunnel_frames_bypass_sequence_and_demux() {
    let mut t = MockTransport::default();
    t.queue_raw(CTRL, FrameKind::TunnelCmd, &[1, 2, 3]);
    t.queue_raw(VEH, FrameKind::TunnelEvt, &[4, 5]);
    let mut link = EspNowLink::new(t);
    let mut rx = [0u8; MAX_ENCODED_FRAME];

    match link.try_receive(&mut rx).unwrap() {
        Some(Inbound::TunnelCmd { peer, bytes }) => {
            assert_eq!(peer, CTRL);
            assert_eq!(bytes, &[1, 2, 3]);
        }
        other => panic!("expected TunnelCmd, got {other:?}"),
    }
    match link.try_receive(&mut rx).unwrap() {
        Some(Inbound::TunnelEvt { peer, bytes }) => {
            assert_eq!(peer, VEH);
            assert_eq!(bytes, &[4, 5]);
        }
        other => panic!("expected TunnelEvt, got {other:?}"),
    }
}

#[test]
fn control_is_broadcast_until_paired_then_unicast() {
    let mut link = EspNowLink::new(MockTransport::default());

    link.send_control(ControlPacket::new(1, 0, 0, 0)).unwrap();
    link.learn_peer(VEH).unwrap();
    link.send_control(ControlPacket::new(2, 0, 0, 0)).unwrap();

    let sent = &link.transport().sent;
    assert_eq!(sent[0].1, BROADCAST_ADDRESS);
    assert_eq!(sent[1].1, VEH);
    assert!(link.transport().peers.contains(&VEH));
}

#[test]
fn tunnel_and_pair_ack_require_pairing() {
    let mut link = EspNowLink::new(MockTransport::default());
    assert_eq!(link.send_tunnel_cmd(&[1]), Err(LinkError::NotPaired));
    assert_eq!(link.send_pair_ack(), Err(LinkError::NotPaired));

    link.learn_peer(CTRL).unwrap();
    link.send_pair_ack().unwrap();
    let (body, dst) = link.transport().sent.last().cloned().unwrap();
    assert_eq!(dst, CTRL);
    assert_eq!(decode_frame(&body).unwrap(), Frame::PairAck);
}

#[test]
fn empty_receive_queue_yields_none() {
    let mut link = EspNowLink::new(MockTransport::default());
    let mut rx = [0u8; MAX_ENCODED_FRAME];
    assert_eq!(link.try_receive(&mut rx), Ok(None));
}

#[test]
fn reset_sequence_accepts_an_older_packet_again() {
    let mut t = MockTransport::default();
    t.queue_control(CTRL, ControlPacket::new(10, 0, 0, 0));
    t.queue_control(CTRL, ControlPacket::new(5, 0, 0, 0));
    let mut link = EspNowLink::new(t);
    let mut rx = [0u8; MAX_ENCODED_FRAME];
    assert!(matches!(link.try_receive(&mut rx), Ok(Some(Inbound::Control(_)))));
    link.reset_sequence();
    match link.try_receive(&mut rx) {
        Ok(Some(Inbound::Control(c))) => {
            assert_eq!(c.packet.sequence, 5);
            assert_eq!(c.meta.peer_mac, CTRL);
        }
        other => panic!("expected Control, got {other:?}"),
    }
}

#[test]
fn malformed_and_pair_ack_frames_are_reported() {
    let mut t = MockTransport::default();
    t.inbox.push((vec![0x09, 1, 2], CTRL));
    t.queue_raw(VEH, FrameKind::PairAck, &[]);
    t.queue_raw(CTRL, FrameKind::Control, &[1, 2, 3]);
    let mut link = EspNowLink::new(t);
    let mut rx = [0u8; MAX_ENCODED_FRAME];
    assert_eq!(
        link.try_receive(&mut rx),
        Err(LinkError::Frame(FrameError::UnknownKind))
    );
    assert_eq!(
        link.try_receive(&mut rx),
        Ok(Some(Inbound::PairAck { peer: VEH }))
    );
    assert_eq!(
        link.try_receive(&mut rx),
        Err(LinkError::Frame(FrameError::BadControlLength))
    );
}

#[test]
fn reset_pairing_returns_control_to_broadcast() {
    let mut link = EspNowLink::new(MockTransport::default());
    link.learn_peer(VEH).unwrap();
    assert!(link.is_paired());
    assert_eq!(link.paired_peer(), Some(VEH));
    link.reset_pairing();
    assert!(!link.is_paired());
    link.send_control(ControlPacket::new(3, 1, 2, 3)).unwrap();
    let (body, dst) = link.transport().sent.last().cloned().unwrap();
    assert_eq!(dst, BROADCAST_ADDRESS);
    assert_eq!(body, vec![0x01, 3, 0, 1, 2, 3, 0, 0, 0]);
    assert_eq!(link.send_tunnel_evt(&[7]), Err(LinkError::NotPaired));
}

#[test]
fn tunnel_send_frames_body_to_peer() {
    let mut link = EspNowLink::new(MockTransport::default());
    link.learn_peer(CTRL).unwrap();
    link.send_tunnel_evt(&[9, 8]).unwrap();
    link.send_tunnel_cmd(&[7]).unwrap();
    assert_eq!(link.transport().sent[0], (vec![0x03, 9, 8], CTRL));
    assert_eq!(link.transport().sent[1], (vec![0x02, 7], CTRL));
    let too_long = [0u8; MAX_ENCODED_FRAME];
    assert_eq!(
        link.send_tunnel_cmd(&too_long),
        Err(LinkError::Frame(FrameError::BufferTooSmall))
    );
    assert_eq!(link.transport().sent.len(), 2);
}

// ── frame ─────────────────────────────────────────────────────────────────────

#[test]
fn control_roundtrip() {
    let packet = ControlPacket::new(0x1234, 10, 240, ControlPacket::BUTTON_A);
    let bytes = packet.to_bytes();
    let mut out = [0u8; MAX_ENCODED_FRAME];
    let n = encode_control(&bytes, &mut out).unwrap();
    assert_eq!(n, 1 + CONTROL_PACKET_LEN);
    assert_eq!(out[0], FrameKind::Control.as_u8());

    match decode_frame(&out[..n]).unwrap() {
        Frame::Control(body) => {
            assert_eq!(ControlPacket::from_bytes(body).unwrap(), packet);
        }
        other => panic!("expected Control, got {other:?}"),
    }
}

#[test]
fn tunnel_roundtrip() {
    let payload = [0xDE, 0xAD, 0xBE, 0xEF];
    let mut out = [0u8; MAX_ENCODED_FRAME];

    let n = encode_frame(FrameKind::TunnelCmd, &payload, &mut out).unwrap();
    assert_eq!(decode_frame(&out[..n]).unwrap(), Frame::TunnelCmd(&payload));

    let n = encode_frame(FrameKind::TunnelEvt, &payload, &mut out).unwrap();
    assert_eq!(decode_frame(&out[..n]).unwrap(), Frame::TunnelEvt(&payload));
}

#[test]
fn pair_ack_roundtrip() {
    let mut out = [0u8; MAX_ENCODED_FRAME];
    let n = encode_frame(FrameKind::PairAck, &[], &mut out).unwrap();
    assert_eq!(n, 1);
    assert_eq!(decode_frame(&out[..n]).unwrap(), Frame::PairAck);
}

#[test]
fn rejects_empty_and_unknown() {
    assert_eq!(decode_frame(&[]), Err(FrameError::Empty));
    assert_eq!(decode_frame(&[0x00]), Err(FrameError::UnknownKind));
    assert_eq!(decode_frame(&[0xFF, 1, 2]), Err(FrameError::UnknownKind));
}

#[test]
fn rejects_bad_control_length() {
    // Control body must be exactly CONTROL_PACKET_LEN.
    let mut out = [0u8; MAX_ENCODED_FRAME];
    let n = encode_frame(FrameKind::Control, &[1, 2, 3], &mut out).unwrap();
    assert_eq!(decode_frame(&out[..n]), Err(FrameError::BadControlLength));
}

#[test]
fn encode_rejects_small_buffer() {
    let mut out = [0u8; 2];
    assert_eq!(
        encode_frame(FrameKind::TunnelCmd, &[1, 2, 3, 4], &mut out),
        Err(FrameError::BufferTooSmall)
    );
}

#[test]
fn encode_leaves_tail_of_buffer_untouched() {
    let mut out = [0xAAu8; 6];
    assert_eq!(encode_frame(FrameKind::TunnelEvt, &[1, 2], &mut out), Ok(3));
    assert_eq!(out, [0x03, 1, 2, 0xAA, 0xAA, 0xAA]);
    let mut small = [0x55u8; 2];
    assert_eq!(
        encode_frame(FrameKind::TunnelEvt, &[1, 2], &mut small),
        Err(FrameError::BufferTooSmall)
    );
    assert_eq!(small, [0x55, 0x55]);
}

#[test]
fn frame_kind_wire_bytes() {
    assert_eq!(FrameKind::Control.as_u8(), 0x01);
    assert_eq!(FrameKind::TunnelCmd.as_u8(), 0x02);
    assert_eq!(FrameKind::TunnelEvt.as_u8(), 0x03);
    assert_eq!(FrameKind::PairAck.as_u8(), 0x04);
    assert_eq!(decode_frame(&[0x04, 9, 9]), Ok(Frame::PairAck));
}

// ── keepalive ─────────────────────────────────────────────────────────────────

#[test]
fn times_out_without_packets() {
    let watchdog = LinkWatchdog::new(500);
    assert_eq!(watchdog.state(100), LinkState::AwaitingFirstPacket);
    assert_eq!(watchdog.state(600), LinkState::TimedOut);
}

#[test]
fn recovers_after_valid_packet() {
    let mut watchdog = LinkWatchdog::new(500);
    watchdog.record_valid_packet(1000);
    assert_eq!(watchdog.state(1200), LinkState::Alive);
    assert_eq!(watchdog.state(1601), LinkState::TimedOut);

    watchdog.record_valid_packet(1700);
    assert_eq!(watchdog.state(1701), LinkState::Alive);
}

#[test]
fn timeout_boundary_is_inclusive() {
    let mut watchdog = LinkWatchdog::new(500);
    assert_eq!(watchdog.state(500), LinkState::AwaitingFirstPacket);
    assert_eq!(watchdog.state(501), LinkState::TimedOut);
    watchdog.record_valid_packet(1000);
    assert_eq!(watchdog.state(1500), LinkState::Alive);
    // A clock reading before the last packet saturates to zero elapsed.
    assert_eq!(watchdog.state(10), LinkState::Alive);
}

// ── pairing ───────────────────────────────────────────────────────────────────

#[test]
fn roundtrip() {
    let mac = [0x24, 0x6F, 0x28, 0xAA, 0xBB, 0xCC];
    assert_eq!(deserialize(&serialize(mac)), Some(mac));
}

#[test]
fn erased_flash_is_unpaired() {
    assert_eq!(deserialize(&[0xFF; PAIRING_RECORD_LEN]), None);
    assert_eq!(deserialize(&[0x00; PAIRING_RECORD_LEN]), None);
}

#[test]
fn rejects_bad_crc() {
    let mut rec = serialize([1, 2, 3, 4, 5, 6]);
    rec[5] ^= 0xFF; // corrupt a MAC byte, leave CRC stale
    assert_eq!(deserialize(&rec), None);
}

#[test]
fn rejects_short_buffer() {
    assert_eq!(deserialize(&[0u8; 4]), None);
}

#[test]
fn record_layout_and_crc_value() {
    // CRC-16/CCITT-FALSE check value: "123456789" -> 0x29B1. Here the record
    // of the all-zero MAC: magic "RIAP" bytes, six zeros, then the CRC (LE).
    let rec = serialize([0; 6]);
    assert_eq!(&rec[0..4], &[0x52, 0x49, 0x41, 0x50]);
    assert_eq!(&rec[4..10], &[0; 6]);
    // Extra trailing bytes after a valid record are ignored.
    let mut longer = rec.to_vec();
    longer.extend_from_slice(&[1, 2, 3]);
    assert_eq!(deserialize(&longer), Some([0; 6]));
    // A corrupted CRC byte is rejected.
    let mut bad = rec;
    bad[11] ^= 0x01;
    assert_eq!(deserialize(&bad), None);
}

// ── protocol ──────────────────────────────────────────────────────────────────

#[test]
fn packet_roundtrip() {
    let packet = ControlPacket::new(0x1234, 128, 200, ControlPacket::BUTTON_A | ControlPacket::BUTTON_B);
    let bytes = packet.to_bytes();
    assert_eq!(bytes.len(), CONTROL_PACKET_LEN);

    let decoded = ControlPacket::from_bytes(&bytes).unwrap();
    assert_eq!(decoded, packet);
}

#[test]
fn sequence_wraparound_is_newer() {
    assert!(is_newer_sequence(65535, 0));
    assert!(!is_newer_sequence(10, 10));
    assert!(!is_newer_sequence(10, 9));
}

#[test]
fn packet_wire_layout() {
    let packet = ControlPacket::new(0x1234, 128, 200, 0x15);
    assert_eq!(packet.to_bytes(), [0x34, 0x12, 128, 200, 0x15, 0, 0, 0]);
    assert_eq!(ControlPacket::from_bytes(&[1, 2, 3]), Err(PacketError::InvalidLength));
    assert_eq!(
        ControlPacket::from_bytes(&[0; 9]),
        Err(PacketError::InvalidLength)
    );
    let p = ControlPacket::from_bytes(&[0xff, 0x00, 1, 2, 3, 4, 5, 6]).unwrap();
    assert_eq!(p.sequence, 0x00ff);
    assert_eq!(p.reserved, [4, 5, 6]);
}

#[test]
fn sequence_half_window() {
    assert!(is_newer_sequence(0, 0x7fff));
    assert!(!is_newer_sequence(0, 0x8000));
    assert!(is_newer_sequence(0xfff0, 0x0005));
    assert!(!is_newer_sequence(0x0005, 0xfff0));
}
