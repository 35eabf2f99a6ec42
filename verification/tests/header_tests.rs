use lifx_codec::LifxDeserializationError;
use lifx_codec::LifxHeader;
use lifx_codec::LifxRequestOptions;
use lifx_codec::LifxSerializationError;

fn sample_header() -> LifxHeader {
    LifxHeader {
        size: 38,
        protocol: 1024,
        addressable: true,
        tagged: false,
        origin: 0,
        source: 0xDEADBEEF,
        target: [0xD0, 0x73, 0xD5, 0x01, 0x02, 0x03, 0, 0],
        _reserved_1: [0; 6],
        flags_and_reserved_2: 0,
        sequence: 7,
        _reserved_3: [0; 8],
        packet_number: 21,
        _reserved_4: [0; 2],
    }
}

#[test]
fn header_round_trips_every_flag_combination() {
    // All sixteen flag combinations and every 2-bit origin: each field comes
    // back independently, with no cross-talk between bits.
    for addressable in [false, true] {
        for tagged in [false, true] {
            for ack in [false, true] {
                for res in [false, true] {
                    for origin in 0u8..4 {
                        let mut h = sample_header();
                        h.addressable = addressable;
                        h.tagged = tagged;
                        h.origin = origin;
                        h.set_ack_required(ack);
                        h.set_res_required(res);
                        let mut buf = vec![0u8; 36];
                        h.to_bytes(&mut buf).unwrap();
                        let d = LifxHeader::from_bytes(&buf).unwrap();
                        assert_eq!(d.addressable, addressable);
                        assert_eq!(d.tagged, tagged);
                        assert_eq!(d.origin, origin);
                        assert_eq!(d.is_ack_required(), ack);
                        assert_eq!(d.is_res_required(), res);
                        assert_eq!(d.protocol, 1024);
                        assert_eq!(d.size, 38);
                        assert_eq!(d.source, 0xDEADBEEF);
                        assert_eq!(d.target, h.target);
                        assert_eq!(d.sequence, 7);
                        assert_eq!(d.packet_number, 21);
                    }
                }
            }
        }
    }
}

#[test]
fn header_layout_is_byte_exact() {
    let mut h = sample_header();
    h.tagged = true;
    let mut buf = vec![0u8; 36];
    h.to_bytes(&mut buf).unwrap();
    // size, little-endian
    assert_eq!(buf[0], 38);
    assert_eq!(buf[1], 0);
    // compound field: protocol 1024 | addressable (bit 12) | tagged (bit 13)
    assert_eq!(u16::from_le_bytes([buf[2], buf[3]]), 0x3400);
    assert_eq!(buf[2], 0x00);
    assert_eq!(buf[3], 0x34);
    // source, little-endian
    assert_eq!(&buf[4..8], &[0xEF, 0xBE, 0xAD, 0xDE]);
    // target
    assert_eq!(&buf[8..16], &h.target);
    // flags byte and sequence
    assert_eq!(buf[22], 0);
    assert_eq!(buf[23], 7);
    // packet number, little-endian
    assert_eq!(u16::from_le_bytes([buf[32], buf[33]]), 21);
}

#[test]
fn header_setters_touch_only_their_bit() {
    let mut h = sample_header();
    h.flags_and_reserved_2 = 0b0000_0101;
    h.set_ack_required(true);
    assert_eq!(h.flags_and_reserved_2, 0b0100_0101);
    h.set_res_required(true);
    assert_eq!(h.flags_and_reserved_2, 0b1100_0101);
    assert!(h.is_ack_required());
    assert!(h.is_res_required());
    h.set_ack_required(false);
    assert_eq!(h.flags_and_reserved_2, 0b1000_0101);
    assert!(!h.is_ack_required());
    assert!(h.is_res_required());
    h.set_res_required(false);
    assert_eq!(h.flags_and_reserved_2, 0b0000_0101);
}

#[test]
fn header_decode_rejects_short_buffer() {
    let buf = vec![0u8; 35];
    assert!(matches!(
        LifxHeader::from_bytes(&buf),
        Err(LifxDeserializationError::InvalidPacketSize)
    ));
}

#[test]
fn header_encode_rejects_short_buffer() {
    let h = sample_header();
    let mut buf = vec![7u8; 35];
    assert!(matches!(
        h.to_bytes(&mut buf),
        Err(LifxSerializationError::BufferTooSmall)
    ));
    assert_eq!(buf, vec![7u8; 35]);
}

#[test]
fn header_decode_preserves_reserved_bytes() {
    let mut buf = vec![0u8; 36];
    let h = sample_header();
    h.to_bytes(&mut buf).unwrap();
    for i in 16..22 {
        buf[i] = 0xA0 + i as u8;
    }
    buf[34] = 0x55;
    buf[35] = 0x66;
    let d = LifxHeader::from_bytes(&buf).unwrap();
    assert_eq!(d._reserved_1, [0xB0, 0xB1, 0xB2, 0xB3, 0xB4, 0xB5]);
    assert_eq!(d._reserved_4, [0x55, 0x66]);
}

#[test]
fn header_masks_protocol_to_twelve_bits() {
    let mut h = sample_header();
    h.protocol = 0xFFFF;
    let mut buf = vec![0u8; 36];
    h.to_bytes(&mut buf).unwrap();
    let d = LifxHeader::from_bytes(&buf).unwrap();
    assert_eq!(d.protocol, 0x0FFF);
}

#[test]
fn request_options_sequence_wraps_at_255() {
    let mut o = LifxRequestOptions::default();
    o.sequence = 255;
    o.increment_sequence();
    assert_eq!(o.sequence, 0);
    o.increment_sequence();
    assert_eq!(o.sequence, 1);
}

#[test]
fn request_options_default_values() {
    let o = LifxRequestOptions::default();
    assert!(!o.tagged);
    assert_eq!(o.source, 1234567890);
    assert_eq!(o.target, [0; 8]);
    assert!(!o.ack_required);
    assert!(!o.res_required);
    assert_eq!(o.sequence, 0);
}
