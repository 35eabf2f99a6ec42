use lifx_codec::deserialize_lifx_packet;
use lifx_codec::deserialize_string;
use lifx_codec::serialize_lifx_packet;
use lifx_codec::LifxDeserializationError;
use lifx_codec::LifxPayload;
use lifx_codec::LifxRequestOptions;
use lifx_codec::LifxSerializationError;
use lifx_codec::Message;

fn options() -> LifxRequestOptions {
    LifxRequestOptions {
        tagged: false,
        source: 0xC0FFEE,
        target: [0xD0, 0x73, 0xD5, 0xAA, 0xBB, 0xCC, 0, 0],
        ack_required: true,
        res_required: false,
        sequence: 42,
    }
}

fn round_trip(m: Message) {
    let o = options();
    let size = 36 + m.size();
    let mut buf = vec![0u8; size];
    let written = serialize_lifx_packet(&o, &m, &mut buf).unwrap();
    assert_eq!(written, size);
    let (h, d) = deserialize_lifx_packet(&buf).unwrap();
    // Size invariant: the decoded header carries 36 + payload size.
    assert_eq!(h.size as usize, 36 + m.size());
    assert_eq!(h.packet_number, m.packet_number());
    assert_eq!(h.protocol, 1024);
    assert!(h.addressable);
    assert_eq!(h.origin, 0);
    assert_eq!(h.tagged, o.tagged);
    assert_eq!(h.source, o.source);
    assert_eq!(h.target, o.target);
    assert_eq!(h.sequence, o.sequence);
    assert_eq!(h.is_ack_required(), o.ack_required);
    assert_eq!(h.is_res_required(), o.res_required);
    assert_eq!(d, m);
}

#[test]
fn round_trip_scalar_messages() {
    round_trip(Message::Service { service: 1, port: 56700 });
    round_trip(Message::StateService { service: 2, port: 8883 });
    round_trip(Message::Power { level: 0 });
    round_trip(Message::LightPower { level: 0x1234 });
    round_trip(Message::SetPower { level: 65535 });
    round_trip(Message::Infrared { brightness: 700 });
    round_trip(Message::SetInfrared { brightness: 0 });
    round_trip(Message::Unhandled { unhandled_type: 0x0155 });
    round_trip(Message::SetLightPower { level: 9, duration_ms: 100000 });
    round_trip(Message::HevCycle { duration_s: 3600, remaining_s: 10, last_power: 1 });
    round_trip(Message::HevCycleConfig { indication: 1, duration_s: 7200 });
    round_trip(Message::LastHevCycleResult { result: 0 });
    round_trip(Message::SetHevCycle { duration_s: 1 });
    round_trip(Message::SetHevCycleConfiguration { indication: 0, duration_s: 42 });
    round_trip(Message::Version { vendor: 1, product: 27, reserved_6: 0 });
    round_trip(Message::Info {
        time: 0x0102030405060708,
        uptime: u64::MAX,
        downtime: 0,
    });
}

#[test]
fn round_trip_empty_messages() {
    round_trip(Message::GetService);
    round_trip(Message::GetMeshInfo {});
    round_trip(Message::GetHostFirmware);
    round_trip(Message::GetWifiInfo);
    round_trip(Message::GetWifiFirmware);
    round_trip(Message::GetPower);
    round_trip(Message::GetLabel);
    round_trip(Message::GetVersion);
    round_trip(Message::GetInfo);
    round_trip(Message::SetReboot);
    round_trip(Message::GetLocation);
    round_trip(Message::GetGroup);
    round_trip(Message::GetColor);
    round_trip(Message::GetLightPower);
    round_trip(Message::GetInfrared);
    round_trip(Message::GetHevCycle);
    round_trip(Message::GetHevCycleConfiguration);
    round_trip(Message::GetLastHevCycleResult);
}

#[test]
fn round_trip_composite_messages() {
    round_trip(Message::MeshInfo {
        signal: 2.5f32.to_bits(),
        tx: 100,
        rx: 200,
        mcu_temperature: 310,
    });
    round_trip(Message::WifiInfo {
        signal: 0.0009f32.to_bits(),
        tx: 7,
        rx: 9,
        mcu_temperature: 0,
    });
    round_trip(Message::HostFirmware {
        build: 1532997580000000000,
        reserved_6: [1, 2, 3, 4, 5, 6, 7, 8],
        version_minor: 70,
        version_major: 3,
    });
    round_trip(Message::WifiFirmware {
        build: 0,
        reserved_6: [0xFF; 8],
        version_minor: 1,
        version_major: 0,
    });
    round_trip(Message::EchoRequest { echoing: [0x5A; 64] });
    round_trip(Message::EchoResponse { echoing: [0xA5; 64] });
    round_trip(Message::SetColor {
        reserved_6: 0,
        hue: 21845,
        saturation: 65535,
        brightness: 32768,
        kelvin: 3500,
        duration_ms: 1024,
    });
    round_trip(Message::SetWaveform {
        reserved_6: 0,
        transient: 1,
        hue: 100,
        saturation: 200,
        brightness: 300,
        kelvin: 400,
        period_ms: 500,
        cycles: 3.5f32.to_bits(),
        skew_ratio: -16384,
        waveform: 4,
    });
    round_trip(Message::SetWaveformOptional {
        reserved_6: 0,
        transient: 0,
        hue: 1,
        saturation: 2,
        brightness: 3,
        kelvin: 4,
        period_ms: 5,
        cycles: 1.0f32.to_bits(),
        skew_ratio: -1,
        waveform: 0,
        set_hue: 1,
        set_saturation: 0,
        set_brightness: 1,
        set_kelvin: 0,
    });
}

#[test]
fn round_trip_text_messages() {
    round_trip(Message::Label { label: String::from("Kitchen") });
    round_trip(Message::SetLabel { label: String::from("") });
    round_trip(Message::Location {
        location: [9; 16],
        label: String::from("Upstairs"),
        updated_at: 1700000000000000000,
    });
    round_trip(Message::SetLocation {
        location: [1; 16],
        label: String::from("caf\u{e9}"),
        updated_at: 5,
    });
    round_trip(Message::Group {
        group: [2; 16],
        label: String::from("Bedroom lights"),
        updated_at: 6,
    });
    round_trip(Message::SetGroup {
        group: [3; 16],
        label: String::from("g"),
        updated_at: 7,
    });
    round_trip(Message::LightState {
        hue: 1,
        saturation: 2,
        brightness: 3,
        kelvin: 4,
        reserved_6: [0, 0],
        power: 65535,
        label: String::from("Desk"),
        reserved_7: [0; 8],
    });
    round_trip(Message::SetAccessPoint {
        interface: 2,
        ssid: String::from("HomeNetwork"),
        password: String::from("correct horse battery staple"),
        protocol: 5,
    });
}

#[test]
fn label_exactly_filling_its_field_round_trips() {
    let label: String = "A".repeat(32);
    round_trip(Message::Label { label: label.clone() });
    let ssid: String = "S".repeat(32);
    let password: String = "p".repeat(64);
    round_trip(Message::SetAccessPoint { interface: 1, ssid, password, protocol: 3 });
    assert_eq!(label.len(), 32);
}

#[test]
fn label_with_embedded_zero_decodes_to_prefix() {
    let o = options();
    let m = Message::Label { label: String::from("ab\0cd") };
    let mut buf = vec![0u8; 36 + 32];
    serialize_lifx_packet(&o, &m, &mut buf).unwrap();
    let (_, d) = deserialize_lifx_packet(&buf).unwrap();
    assert_eq!(d, Message::Label { label: String::from("ab") });
}

#[test]
fn get_service_scenario_is_byte_exact() {
    // Broadcast discovery request: 36 bytes, packet type 2, tagged bit set.
    let o = LifxRequestOptions {
        tagged: true,
        source: 0,
        target: [0; 8],
        ack_required: false,
        res_required: false,
        sequence: 0,
    };
    let mut buf = vec![0u8; 36];
    let written = serialize_lifx_packet(&o, &Message::GetService, &mut buf).unwrap();
    assert_eq!(written, 36);
    assert_eq!(u16::from_le_bytes([buf[32], buf[33]]), 2);
    let compound = u16::from_le_bytes([buf[2], buf[3]]);
    assert!(compound & 0x2000 != 0);
    assert_eq!(u16::from_le_bytes([buf[0], buf[1]]), 36);
}

#[test]
fn set_power_scenario_is_byte_exact() {
    let o = options();
    let m = Message::SetPower { level: 65535 };
    let mut buf = vec![0u8; 38];
    let written = serialize_lifx_packet(&o, &m, &mut buf).unwrap();
    assert_eq!(written, 38);
    assert_eq!(&buf[36..38], &[0xFF, 0xFF]);
    assert_eq!(u16::from_le_bytes([buf[0], buf[1]]), 38);
}

#[test]
fn unknown_packet_type_is_reported_with_its_value() {
    let mut h = lifx_codec::LifxHeader::from_bytes(&{
        let mut b = vec![0u8; 36];
        let o = options();
        serialize_lifx_packet(&o, &Message::GetService, &mut b).unwrap();
        b
    })
    .unwrap();
    h.packet_number = 0xFFFF;
    let mut buf = vec![0u8; 40];
    h.to_bytes(&mut buf).unwrap();
    assert!(matches!(
        deserialize_lifx_packet(&buf),
        Err(LifxDeserializationError::InvalidPacketNumber(0xFFFF))
    ));
}

#[test]
fn truncated_buffer_yields_packet_too_small() {
    let buf = vec![0u8; 35];
    assert!(matches!(
        deserialize_lifx_packet(&buf),
        Err(LifxDeserializationError::InvalidPacketSize)
    ));
    assert!(matches!(
        deserialize_lifx_packet(&[]),
        Err(LifxDeserializationError::InvalidPacketSize)
    ));
}

#[test]
fn payload_shorter_than_its_type_requires_yields_packet_too_small() {
    // A valid header announcing SetPower (2-byte payload) with no payload
    // bytes after it.
    let o = options();
    let m = Message::SetPower { level: 1 };
    let mut buf = vec![0u8; 38];
    serialize_lifx_packet(&o, &m, &mut buf).unwrap();
    buf.truncate(36);
    assert!(matches!(
        deserialize_lifx_packet(&buf),
        Err(LifxDeserializationError::InvalidPacketSize)
    ));
}

#[test]
fn invalid_utf8_in_label_is_rejected() {
    let o = options();
    let m = Message::Label { label: String::from("x") };
    let mut buf = vec![0u8; 36 + 32];
    serialize_lifx_packet(&o, &m, &mut buf).unwrap();
    buf[36] = 0xFF;
    assert!(matches!(
        deserialize_lifx_packet(&buf),
        Err(LifxDeserializationError::InvalidUtf8String)
    ));
}

#[test]
fn buffer_too_small_on_encode_leaves_buffer_unchanged() {
    let o = options();
    let m = Message::SetPower { level: 3 };
    let mut buf = vec![9u8; 37];
    assert!(matches!(
        serialize_lifx_packet(&o, &m, &mut buf),
        Err(LifxSerializationError::BufferTooSmall)
    ));
    assert_eq!(buf, vec![9u8; 37]);
}

#[test]
fn oversized_label_is_rejected_not_truncated() {
    let o = options();
    let m = Message::Label { label: "B".repeat(33) };
    let mut buf = vec![1u8; 200];
    assert!(matches!(
        serialize_lifx_packet(&o, &m, &mut buf),
        Err(LifxSerializationError::OversizedText)
    ));
    assert_eq!(buf, vec![1u8; 200]);
    let m2 = Message::SetAccessPoint {
        interface: 1,
        ssid: String::from("ok"),
        password: "p".repeat(65),
        protocol: 1,
    };
    assert!(matches!(
        serialize_lifx_packet(&o, &m2, &mut buf),
        Err(LifxSerializationError::OversizedText)
    ));
}

#[test]
fn trailing_bytes_are_ignored_on_decode_and_preserved_on_encode() {
    let o = options();
    let m = Message::Power { level: 1000 };
    let mut buf = vec![0xAAu8; 200];
    let written = serialize_lifx_packet(&o, &m, &mut buf).unwrap();
    assert_eq!(written, 38);
    assert!(buf[38..].iter().all(|&b| b == 0xAA));
    let (h, d) = deserialize_lifx_packet(&buf).unwrap();
    assert_eq!(h.size, 38);
    assert_eq!(d, m);
}

#[test]
fn payload_codec_direct_round_trip() {
    // The payload codec alone, at a nonzero offset.
    let m = Message::Power { level: 513 };
    let mut buf = vec![0u8; 10];
    let n = m.to_bytes(&mut buf, 4).unwrap();
    assert_eq!(n, 2);
    assert_eq!(buf, vec![0, 0, 0, 0, 1, 2, 0, 0, 0, 0]);
    let d = Message::from_bytes(22, &buf[4..]).unwrap();
    assert_eq!(d, m);
}

#[test]
fn packet_numbers_and_sizes_match_the_protocol_table() {
    assert_eq!(Message::GetService.packet_number(), 2);
    assert_eq!(Message::GetService.size(), 0);
    assert_eq!(Message::Service { service: 1, port: 0 }.packet_number(), 1);
    assert_eq!(Message::Service { service: 1, port: 0 }.size(), 5);
    let ls = Message::LightState {
        hue: 0,
        saturation: 0,
        brightness: 0,
        kelvin: 0,
        reserved_6: [0, 0],
        power: 0,
        label: String::new(),
        reserved_7: [0; 8],
    };
    assert_eq!(ls.packet_number(), 107);
    assert_eq!(ls.size(), 52);
    let ap = Message::SetAccessPoint {
        interface: 1,
        ssid: String::new(),
        password: String::new(),
        protocol: 1,
    };
    assert_eq!(ap.packet_number(), 305);
    assert_eq!(ap.size(), 98);
    assert_eq!(Message::EchoRequest { echoing: [0; 64] }.size(), 64);
    assert_eq!(Message::Info { time: 0, uptime: 0, downtime: 0 }.size(), 24);
}

#[test]
fn deserialize_string_reads_prefix_before_first_zero() {
    assert_eq!(deserialize_string(b"hello\0world").unwrap(), "hello");
    assert_eq!(deserialize_string(b"hello").unwrap(), "hello");
    assert_eq!(deserialize_string(b"").unwrap(), "");
    assert_eq!(deserialize_string(b"\0abc").unwrap(), "");
    // Multi-byte UTF-8 decodes to the same characters, not raw bytes.
    let s = "caf\u{e9} \u{2603}";
    assert_eq!(deserialize_string(s.as_bytes()).unwrap(), s);
    assert!(matches!(
        deserialize_string(&[0x66, 0xFF, 0x67]),
        Err(LifxDeserializationError::InvalidUtf8String)
    ));
}
