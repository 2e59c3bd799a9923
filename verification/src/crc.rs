//! CRC-16/CCITT over a VoSPI packet, under the normalisation that the
//! camera applies before it computes the checksum.

use vstd::prelude::*;

verus! {

/// Generator polynomial of CRC-16/CCITT.
pub const CRC16_POLY: u16 = 0x1021;

/// Number of bytes in a VoSPI packet header: the ID and the CRC field.
pub const PACKET_HEADER_BYTES: usize = 4;

/// One shift of the CRC register, most significant bit first.
pub open spec fn crc16_shift(crc: u16) -> u16 {
    if crc & 0x8000 != 0 {
        (crc << 1) ^ CRC16_POLY
    } else {
        crc << 1
    }
}

/// The CRC register after `n` shifts.
pub open spec fn crc16_shifts(crc: u16, n: nat) -> u16
    decreases n,
{
    if n == 0 {
        crc
    } else {
        crc16_shift(crc16_shifts(crc, (n - 1) as nat))
    }
}

/// The CRC register after one more message byte.
pub open spec fn crc16_update(crc: u16, byte: u8) -> u16 {
    crc16_shifts(crc ^ ((byte as u16) << 8), 8)
}

/// CRC-16/CCITT of a byte string: initial value 0, no reflection, no final
/// XOR.
pub open spec fn crc16_ccitt(data: Seq<u8>) -> u16
    decreases data.len(),
{
    if data.len() == 0 {
        0
    } else {
        crc16_update(crc16_ccitt(data.drop_last()), data.last())
    }
}

/// The byte that stands at `idx` when the CRC is computed: the upper nibble
/// of byte 0 and the whole CRC field count as zero.
pub open spec fn normalized_byte(idx: int, byte: u8) -> u8 {
    if idx == 0 {
        byte & 0x0F
    } else if idx == 2 || idx == 3 {
        0
    } else {
        byte
    }
}

/// A packet as the CRC sees it.
pub open spec fn normalized_packet(packet: Seq<u8>) -> Seq<u8> {
    Seq::new(packet.len(), |i: int| normalized_byte(i, packet[i]))
}

/// The checksum of a packet, where it is long enough to hold a header.
pub open spec fn packet_crc16(packet: Seq<u8>) -> Option<u16> {
    if packet.len() < PACKET_HEADER_BYTES {
        None
    } else {
        Some(crc16_ccitt(normalized_packet(packet)))
    }
}

/// Two packets agree wherever the CRC looks: same length, same low nibble
/// in byte 0, and the same bytes outside the CRC field.
pub open spec fn same_crc_input(a: Seq<u8>, b: Seq<u8>) -> bool {
    &&& a.len() == b.len()
    &&& forall|i: int| 0 <= i < a.len() ==> normalized_byte(i, #[trigger] a[i]) == normalized_byte(i, b[i])
}

/// `packet` with `nibble` in the upper half of byte 0 and `crc_hi`, `crc_lo`
/// in the CRC field.
pub open spec fn rewritten(packet: Seq<u8>, nibble: u8, crc_hi: u8, crc_lo: u8) -> Seq<u8> {
    packet.update(0, (packet[0] & 0x0F) | (nibble << 4)).update(2, crc_hi).update(3, crc_lo)
}

/// The checksum of a prefix one byte longer.
proof fn lemma_prefix_step(data: Seq<u8>, n: int)
    requires
        0 <= n < data.len(),
    ensures
        crc16_ccitt(data.take(n + 1)) == crc16_update(crc16_ccitt(data.take(n)), data[n]),
{
    assert(data.take(n + 1).drop_last() =~= data.take(n));
}

/// Computes the CRC-16 of a packet under the VoSPI normalisation rules, or
/// `None` when the packet cannot hold a header.
pub fn lepton_packet_crc16_spec(packet: &[u8]) -> (res: Option<u16>)
    ensures
        res == packet_crc16(packet@),
        res is None <==> packet@.len() < PACKET_HEADER_BYTES,
{
    if packet.len() < PACKET_HEADER_BYTES {
        return None;
    }
    let ghost norm = normalized_packet(packet@);
    let mut crc: u16 = 0;
    let mut idx: usize = 0;
    while idx < packet.len()
        invariant
            idx <= packet.len(),
            norm == normalized_packet(packet@),
            crc == crc16_ccitt(norm.take(idx as int)),
        decreases packet.len() - idx,
    {
        let byte: u8 = packet[idx];
        let normalized: u8 = if idx == 0 {
            byte & 0x0F
        } else if idx == 2 || idx == 3 {
            0
        } else {
            byte
        };
        assert(normalized == norm[idx as int]);
        let ghost before = crc;
        crc = crc ^ ((normalized as u16) << 8);
        let mut bit: u8 = 0;
        while bit < 8
            invariant
                bit <= 8,
                crc == crc16_shifts(before ^ ((normalized as u16) << 8), bit as nat),
            decreases 8 - bit,
        {
            if (crc & 0x8000) != 0 {
                crc = (crc << 1) ^ CRC16_POLY;
            } else {
                crc = crc << 1;
            }
            bit = bit + 1;
        }
        proof {
            lemma_prefix_step(norm, idx as int);
        }
        idx = idx + 1;
    }
    assert(norm.take(idx as int) =~= norm);
    Some(crc)
}

/// The checksum as a plain number: 0 stands for a packet too short to have
/// one. Prefer `lepton_packet_crc16_spec`, which tells a checksum of 0 from
/// a packet without one.
pub fn lepton_packet_crc16(packet: &[u8]) -> (crc: u16)
    ensures
        crc == match packet_crc16(packet@) {
            Some(c) => c,
            None => 0,
        },
{
    match lepton_packet_crc16_spec(packet) {
        Some(c) => c,
        None => 0,
    }
}

/// The checksum does not see the upper nibble of byte 0 nor the CRC field:
/// packets that differ there and nowhere else have the same checksum.
pub proof fn lemma_crc_ignores_masked_bits(a: Seq<u8>, b: Seq<u8>)
    requires
        a.len() >= PACKET_HEADER_BYTES,
        same_crc_input(a, b),
    ensures
        packet_crc16(a) == packet_crc16(b),
        packet_crc16(a) is Some,
{
    assert(normalized_packet(a) =~= normalized_packet(b));
}

/// Overwriting the upper nibble of byte 0 and both bytes of the CRC field
/// with arbitrary values leaves the checksum as it was.
pub proof fn lemma_crc_invariant_under_rewrite(packet: Seq<u8>, nibble: u8, crc_hi: u8, crc_lo: u8)
    requires
        packet.len() >= PACKET_HEADER_BYTES,
    ensures
        packet_crc16(rewritten(packet, nibble, crc_hi, crc_lo)) == packet_crc16(packet),
{
    let first = packet[0];
    assert(((first & 0x0F) | (nibble << 4)) & 0x0F == first & 0x0F) by (bit_vector);
    let other = rewritten(packet, nibble, crc_hi, crc_lo);
    assert(same_crc_input(packet, other));
    lemma_crc_ignores_masked_bits(packet, other);
}

/// A packet too short to hold a header has no checksum.
pub proof fn lemma_short_packet_has_no_crc(packet: Seq<u8>)
    requires
        packet.len() < PACKET_HEADER_BYTES,
    ensures
        packet_crc16(packet) is None,
{
}

} // verus!
