//! Persistent pairing record: the paired peer MAC survives reboots so the link
//! comes up in unicast immediately without re-running the broadcast handshake.
//!
//! Record layout ([`PAIRING_RECORD_LEN`] bytes):
//! `[magic: u32 LE][mac: 6][crc16: u16 LE]`, where the CRC covers the magic and
//! MAC bytes. A record whose magic or CRC does not validate reads back as
//! "unpaired", which also covers erased flash (all `0xFF`).
use vstd::prelude::*;
use crate::protocol::{lo_byte, hi_byte, u16_from_le, lemma_u16_le_roundtrip};

verus! {

/// Total length of a serialized pairing record.
pub const PAIRING_RECORD_LEN: usize = 12;

/// Marker identifying a valid record ("PAIR" in ASCII, `0x5041_4952`).
const MAGIC: u32 = 0x5041_4952;

/// Little-endian bytes of the record marker.
pub open spec fn magic_bytes() -> Seq<u8> {
    seq![0x52u8, 0x49u8, 0x41u8, 0x50u8]
}

/// One shift step of CRC-16/CCITT (polynomial `0x1021`).
pub open spec fn crc_step(crc: u16) -> u16 {
    if crc & 0x8000 != 0 {
        ((crc << 1u16) ^ 0x1021u16) as u16
    } else {
        (crc << 1u16) as u16
    }
}

/// `n` shift steps.
pub open spec fn crc_steps(crc: u16, n: nat) -> u16
    decreases n,
{
    if n == 0 {
        crc
    } else {
        crc_step(crc_steps(crc, (n - 1) as nat))
    }
}

/// The CRC after feeding one more byte.
pub open spec fn crc_update(crc: u16, byte: u8) -> u16 {
    crc_steps(crc ^ ((byte as u16) << 8u16), 8)
}

/// CRC-16/CCITT-FALSE (polynomial `0x1021`, initial value `0xFFFF`, no
/// reflection, no final XOR) of a byte sequence.
pub open spec fn crc16(data: Seq<u8>) -> u16
    decreases data.len(),
{
    if data.len() == 0 {
        0xFFFF
    } else {
        crc_update(crc16(data.drop_last()), data.last())
    }
}

/// The record stored for a paired peer MAC.
pub open spec fn record_bytes(mac: Seq<u8>) -> Seq<u8> {
    let head = magic_bytes() + mac;
    head + seq![lo_byte(crc16(head)), hi_byte(crc16(head))]
}

/// The MAC a stored record reads back as: the six MAC bytes when the buffer
/// holds a whole record whose magic and CRC validate, otherwise none. Bytes
/// past the record are ignored.
pub open spec fn record_mac(bytes: Seq<u8>) -> Option<Seq<u8>> {
    if bytes.len() < PAIRING_RECORD_LEN {
        None
    } else if bytes.take(4) != magic_bytes() {
        None
    } else if crc16(bytes.take(10)) != u16_from_le(bytes[10], bytes[11]) {
        None
    } else {
        Some(bytes.subrange(4, 10))
    }
}

/// Serialize a paired peer MAC into a fixed-size record.
pub fn serialize(mac: [u8; 6]) -> (rec: [u8; PAIRING_RECORD_LEN])
    ensures
        rec@ == record_bytes(mac@),
{
    let mut rec = [0u8; PAIRING_RECORD_LEN];
    rec[0] = (MAGIC & 0xff) as u8;
    rec[1] = ((MAGIC >> 8) & 0xff) as u8;
    rec[2] = ((MAGIC >> 16) & 0xff) as u8;
    rec[3] = ((MAGIC >> 24) & 0xff) as u8;
    assert(rec@.take(4) =~= magic_bytes()) by {
        assert((0x5041_4952u32 & 0xff) as u8 == 0x52u8) by (bit_vector);
        assert(((0x5041_4952u32 >> 8) & 0xff) as u8 == 0x49u8) by (bit_vector);
        assert(((0x5041_4952u32 >> 16) & 0xff) as u8 == 0x41u8) by (bit_vector);
        assert(((0x5041_4952u32 >> 24) & 0xff) as u8 == 0x50u8) by (bit_vector);
    }
    let mut i: usize = 0;
    while i < 6
        invariant
            0 <= i <= 6,
            rec@.len() == PAIRING_RECORD_LEN,
            rec@.take(4) == magic_bytes(),
            forall|j: int| 0 <= j < i ==> rec@[4 + j] == mac@[j],
        decreases 6 - i,
    {
        rec[4 + i] = mac[i];
        i = i + 1;
        assert(rec@.take(4) =~= magic_bytes());
    }
    let ghost head = magic_bytes() + mac@;
    assert(rec@.take(10) =~= head);
    let crc = crc16_ccitt(&rec[0..10]);
    rec[10] = (crc & 0xff) as u8;
    rec[11] = (crc >> 8) as u8;
    assert(rec@ =~= record_bytes(mac@));
    rec
}

/// Parse a pairing record, returning the MAC only if magic and CRC validate.
pub fn deserialize(bytes: &[u8]) -> (mac: Option<[u8; 6]>)
    ensures
        match mac {
            Some(m) => record_mac(bytes@) == Some(m@),
            None => record_mac(bytes@) is None,
        },
{
    if bytes.len() < PAIRING_RECORD_LEN {
        return None;
    }
    if bytes[0] != 0x52 || bytes[1] != 0x49 || bytes[2] != 0x41 || bytes[3] != 0x50 {
        assert(bytes@.take(4) != magic_bytes()) by {
            if bytes@.take(4) == magic_bytes() {
                assert(bytes@.take(4)[0] == bytes@[0]);
                assert(bytes@.take(4)[1] == bytes@[1]);
                assert(bytes@.take(4)[2] == bytes@[2]);
                assert(bytes@.take(4)[3] == bytes@[3]);
            }
        }
        return None;
    }
    assert(bytes@.take(4) =~= magic_bytes());
    let stored_crc = (bytes[10] as u16) | ((bytes[11] as u16) << 8);
    if crc16_ccitt(&bytes[0..10]) != stored_crc {
        return None;
    }
    let mut mac = [0u8; 6];
    let mut i: usize = 0;
    while i < 6
        invariant
            0 <= i <= 6,
            bytes@.len() >= PAIRING_RECORD_LEN,
            mac@.len() == 6,
            forall|j: int| 0 <= j < i ==> mac@[j] == bytes@[4 + j],
        decreases 6 - i,
    {
        mac[i] = bytes[4 + i];
        i = i + 1;
    }
    assert(mac@ =~= bytes@.subrange(4, 10));
    Some(mac)
}

/// CRC-16/CCITT-FALSE of `data`. Small and adequate for a 10-byte record
/// written rarely; not a security measure.
fn crc16_ccitt(data: &[u8]) -> (crc: u16)
    ensures
        crc == crc16(data@),
{
    let len = data.len();
    let mut crc: u16 = 0xFFFF;
    let mut i: usize = 0;
    assert(data@.take(0) =~= Seq::<u8>::empty());
    while i < len
        invariant
            0 <= i <= len,
            len == data@.len(),
            crc == crc16(data@.take(i as int)),
        decreases len - i,
    {
        let byte = data[i];
        crc = crc ^ ((byte as u16) << 8);
        let ghost start = crc;
        let mut k: u32 = 0;
        while k < 8
            invariant
                0 <= k <= 8,
                crc == crc_steps(start, k as nat),
            decreases 8 - k,
        {
            if crc & 0x8000 != 0 {
                crc = (crc << 1) ^ 0x1021;
            } else {
                crc = crc << 1;
            }
            k = k + 1;
        }
        assert(data@.take(i + 1).drop_last() =~= data@.take(i as int));
        i = i + 1;
    }
    assert(data@.take(len as int) =~= data@);
    crc
}

/// The record layout: the marker `0x5041_4952` ("PAIR") as little-endian
/// bytes `52 49 41 50`, the six MAC bytes in order, then the CRC of those
/// ten bytes, low byte first; twelve bytes in all.
pub proof fn lemma_record_layout(mac: Seq<u8>)
    requires
        mac.len() == 6,
    ensures
        record_bytes(mac).len() == 12,
        record_bytes(mac)[0] == 0x52u8 && record_bytes(mac)[1] == 0x49u8,
        record_bytes(mac)[2] == 0x41u8 && record_bytes(mac)[3] == 0x50u8,
        forall|i: int| 0 <= i < 6 ==> #[trigger] record_bytes(mac)[4 + i] == mac[i],
        record_bytes(mac)[10] as int + 256 * (record_bytes(mac)[11] as int) == crc16(record_bytes(mac).take(10)) as int,
{
    let head = magic_bytes() + mac;
    assert(record_bytes(mac).take(10) =~= head);
    let c = crc16(head);
    assert(((c & 0xff) as u8) as int + 256 * (((c >> 8) as u8) as int) == c as int) by (bit_vector);
}

/// Reading back the record of a MAC gives that MAC.
pub proof fn lemma_record_roundtrip(mac: Seq<u8>)
    requires
        mac.len() == 6,
    ensures
        record_bytes(mac).len() == PAIRING_RECORD_LEN,
        record_mac(record_bytes(mac)) == Some(mac),
{
    let head = magic_bytes() + mac;
    let rec = record_bytes(mac);
    assert(rec.take(4) =~= magic_bytes());
    assert(rec.take(10) =~= head);
    lemma_u16_le_roundtrip(crc16(head));
    assert(rec.subrange(4, 10) =~= mac);
}

/// A record that does not begin with the marker reads back as unpaired; in
/// particular erased flash (`0xFF` bytes) and zeroed flash do.
pub proof fn lemma_bad_magic_is_unpaired(bytes: Seq<u8>)
    requires
        bytes.len() >= 1,
        bytes[0] != 0x52u8,
    ensures
        record_mac(bytes) is None,
{
    if bytes.len() >= PAIRING_RECORD_LEN {
        assert(bytes.take(4)[0] != magic_bytes()[0]);
    }
}

} // verus!
