use lepton::crc::{lepton_packet_crc16, lepton_packet_crc16_spec};

#[test]
fn crc_short_packet_returns_none() {
    assert_eq!(lepton_packet_crc16_spec(&[1, 2, 3]), None);
}

#[test]
fn crc_masks_id_upper_nibble() {
    let mut packet_a = [0u8; 12];
    let mut packet_b = packet_a;

    packet_a[0] = 0x10;
    packet_a[1] = 0x14;
    packet_a[4] = 0x5A;

    packet_b[0] = 0xA0;
    packet_b[1] = 0x14;
    packet_b[4] = 0x5A;

    assert_eq!(
        lepton_packet_crc16_spec(&packet_a),
        lepton_packet_crc16_spec(&packet_b)
    );
}

#[test]
fn crc_zeros_crc_field_bytes() {
    let mut packet_a = [0u8; 12];
    packet_a[0] = 0x00;
    packet_a[1] = 0x14;
    packet_a[4] = 0xBE;

    let mut packet_b = packet_a;
    packet_b[2] = 0x12;
    packet_b[3] = 0x34;

    assert_eq!(
        lepton_packet_crc16_spec(&packet_a),
        lepton_packet_crc16_spec(&packet_b)
    );
}

#[test]
fn crc_known_vector() {
    let packet = [0x10, 0x14, 0x00, 0x00, 0xAB, 0xCD, 0x10, 0x20, 0x30, 0x40];
    assert_eq!(lepton_packet_crc16_spec(&packet), Some(0x2F69));
}

#[test]
fn crc_of_empty_and_header_only_packets() {
    assert_eq!(lepton_packet_crc16_spec(&[]), None);
    // Four bytes that all count as zero: the register never leaves 0.
    assert_eq!(lepton_packet_crc16_spec(&[0xF0, 0x00, 0xAB, 0xCD]), Some(0));
    // CRC-16/XMODEM of the single byte 0x01 followed by three zero bytes.
    assert_eq!(
        lepton_packet_crc16_spec(&[0x01, 0x00, 0x00, 0x00]),
        Some(crc16_reference(&[0x01, 0x00, 0x00, 0x00]))
    );
}

#[test]
fn crc_plain_number_is_zero_for_short_packets() {
    assert_eq!(lepton_packet_crc16(&[1, 2, 3]), 0);
    let packet = [0x10, 0x14, 0x00, 0x00, 0xAB, 0xCD, 0x10, 0x20, 0x30, 0x40];
    assert_eq!(lepton_packet_crc16(&packet), 0x2F69);
}

#[test]
fn crc_is_xmodem_of_the_normalised_packet() {
    let packet: Vec<u8> = (0..164u32).map(|i| (i * 7 + 3) as u8).collect();
    let mut normalised = packet.clone();
    normalised[0] &= 0x0F;
    normalised[2] = 0;
    normalised[3] = 0;
    assert_eq!(
        lepton_packet_crc16_spec(&packet),
        Some(crc16_reference(&normalised))
    );
}

#[test]
fn crc_sees_the_low_nibble_of_byte_zero() {
    let mut packet_a = [0u8; 8];
    let mut packet_b = [0u8; 8];
    packet_a[0] = 0x01;
    packet_b[0] = 0x02;
    assert_ne!(
        lepton_packet_crc16_spec(&packet_a),
        lepton_packet_crc16_spec(&packet_b)
    );
}

/// CRC-16/XMODEM, bit by bit over a table-free long division.
fn crc16_reference(data: &[u8]) -> u16 {
    let mut rem: u32 = 0;
    for &byte in data {
        for bit in (0..8).rev() {
            let top = (rem >> 15) & 1;
            rem = ((rem << 1) & 0xFFFF) | 0;
            let incoming = ((byte >> bit) & 1) as u32;
            if top ^ incoming == 1 {
                rem ^= 0x1021;
            }
        }
    }
    rem as u16
}
