//! The codec's laws, proved once and for all inputs: encoding follows
//! decoding back to the same message, and a whole datagram decodes to the
//! header fields and payload it was built from.
use vstd::prelude::*;

use vstd::bytes::{
    lemma_auto_spec_u16_to_from_le_bytes, lemma_auto_spec_u32_to_from_le_bytes,
    lemma_auto_spec_u64_to_from_le_bytes, spec_u16_from_le_bytes, spec_u16_to_le_bytes,
    spec_u32_from_le_bytes, spec_u32_to_le_bytes, spec_u64_to_le_bytes,
};

use crate::codec::{lemma_payload_bytes_len, spec_decode_payload, spec_payload_bytes};
use crate::error::LifxDeserializationError;
use crate::messages::{
    lemma_payload_size_bounds, spec_msg_fits, spec_msg_wf, spec_packet_number, spec_payload_size,
    MessageModel,
};
use crate::request_options::LifxRequestOptions;
use crate::wire::{
    lemma_i16_round_trip, lemma_text_round_trip, spec_i16_to_le_bytes, spec_text_bytes,
    spec_text_clean, spec_zero_bytes,
};
use crate::{spec_options_flags_byte, spec_packet_bytes, spec_request_header_bytes};

verus! {

/// Whether no text field of `m` holds a zero byte in its UTF-8 encoding.  A
/// zero byte would read back as the field's terminator, so only such
/// messages round-trip; every other field round-trips unconditionally.
pub open spec fn spec_msg_text_clean(m: MessageModel) -> bool {
    match m {
        MessageModel::Label { label } => spec_text_clean(label),
        MessageModel::Location { label, .. } => spec_text_clean(label),
        MessageModel::Group { label, .. } => spec_text_clean(label),
        MessageModel::LightState { label, .. } => spec_text_clean(label),
        MessageModel::SetLabel { label } => spec_text_clean(label),
        MessageModel::SetLocation { label, .. } => spec_text_clean(label),
        MessageModel::SetGroup { label, .. } => spec_text_clean(label),
        MessageModel::SetAccessPoint { ssid, password, .. } => spec_text_clean(ssid) && spec_text_clean(password),
        _ => true,
    }
}

proof fn lemma_rt_service(m: MessageModel, extra: Seq<u8>)
    requires
        m matches MessageModel::Service { .. },
        spec_msg_wf(m),
        spec_msg_fits(m),
        spec_msg_text_clean(m),
    ensures
        spec_decode_payload(spec_packet_number(m), spec_payload_bytes(m) + extra) == Ok::<
            MessageModel,
            LifxDeserializationError,
        >(m),
{
    lemma_auto_spec_u16_to_from_le_bytes();
    lemma_auto_spec_u32_to_from_le_bytes();
    lemma_auto_spec_u64_to_from_le_bytes();
    lemma_payload_bytes_len(m);
    let b = spec_payload_bytes(m) + extra;
    match m {
        MessageModel::Service { service, port } => {
            assert(b[0] == service);
            assert(b.subrange(1, 5) =~= spec_u32_to_le_bytes(port));
            assert(spec_decode_payload(1, b) matches Ok(v) && v =~= m);
        },
        _ => {},
    }
}

proof fn lemma_rt_state_service(m: MessageModel, extra: Seq<u8>)
    requires
        m matches MessageModel::StateService { .. },
        spec_msg_wf(m),
        spec_msg_fits(m),
        spec_msg_text_clean(m),
    ensures
        spec_decode_payload(spec_packet_number(m), spec_payload_bytes(m) + extra) == Ok::<
            MessageModel,
            LifxDeserializationError,
        >(m),
{
    lemma_auto_spec_u16_to_from_le_bytes();
    lemma_auto_spec_u32_to_from_le_bytes();
    lemma_auto_spec_u64_to_from_le_bytes();
    lemma_payload_bytes_len(m);
    let b = spec_payload_bytes(m) + extra;
    match m {
        MessageModel::StateService { service, port } => {
            assert(b[0] == service);
            assert(b.subrange(1, 5) =~= spec_u32_to_le_bytes(port));
            assert(spec_decode_payload(3, b) matches Ok(v) && v =~= m);
        },
        _ => {},
    }
}

proof fn lemma_rt_mesh_info(m: MessageModel, extra: Seq<u8>)
    requires
        m matches MessageModel::MeshInfo { .. },
        spec_msg_wf(m),
        spec_msg_fits(m),
        spec_msg_text_clean(m),
    ensures
        spec_decode_payload(spec_packet_number(m), spec_payload_bytes(m) + extra) == Ok::<
            MessageModel,
            LifxDeserializationError,
        >(m),
{
    lemma_auto_spec_u16_to_from_le_bytes();
    lemma_auto_spec_u32_to_from_le_bytes();
    lemma_auto_spec_u64_to_from_le_bytes();
    lemma_payload_bytes_len(m);
    let b = spec_payload_bytes(m) + extra;
    match m {
        MessageModel::MeshInfo { signal, tx, rx, mcu_temperature } => {
            assert(b.subrange(0, 4) =~= spec_u32_to_le_bytes(signal));
            assert(b.subrange(4, 8) =~= spec_u32_to_le_bytes(tx));
            assert(b.subrange(8, 12) =~= spec_u32_to_le_bytes(rx));
            assert(b.subrange(12, 14) =~= spec_u16_to_le_bytes(mcu_temperature));
            assert(spec_decode_payload(13, b) matches Ok(v) && v =~= m);
        },
        _ => {},
    }
}

proof fn lemma_rt_host_firmware(m: MessageModel, extra: Seq<u8>)
    requires
        m matches MessageModel::HostFirmware { .. },
        spec_msg_wf(m),
        spec_msg_fits(m),
        spec_msg_text_clean(m),
    ensures
        spec_decode_payload(spec_packet_number(m), spec_payload_bytes(m) + extra) == Ok::<
            MessageModel,
            LifxDeserializationError,
        >(m),
{
    lemma_auto_spec_u16_to_from_le_bytes();
    lemma_auto_spec_u32_to_from_le_bytes();
    lemma_auto_spec_u64_to_from_le_bytes();
    lemma_payload_bytes_len(m);
    let b = spec_payload_bytes(m) + extra;
    match m {
        MessageModel::HostFirmware { build, reserved_6, version_minor, version_major } => {
            assert(b.subrange(0, 8) =~= spec_u64_to_le_bytes(build));
            assert(b.subrange(8, 16) =~= reserved_6);
            assert(b.subrange(16, 18) =~= spec_u16_to_le_bytes(version_minor));
            assert(b.subrange(18, 20) =~= spec_u16_to_le_bytes(version_major));
            assert(spec_decode_payload(15, b) matches Ok(v) && v =~= m);
        },
        _ => {},
    }
}

proof fn lemma_rt_wifi_info(m: MessageModel, extra: Seq<u8>)
    requires
        m matches MessageModel::WifiInfo { .. },
        spec_msg_wf(m),
        spec_msg_fits(m),
        spec_msg_text_clean(m),
    ensures
        spec_decode_payload(spec_packet_number(m), spec_payload_bytes(m) + extra) == Ok::<
            MessageModel,
            LifxDeserializationError,
        >(m),
{
    lemma_auto_spec_u16_to_from_le_bytes();
    lemma_auto_spec_u32_to_from_le_bytes();
    lemma_auto_spec_u64_to_from_le_bytes();
    lemma_payload_bytes_len(m);
    let b = spec_payload_bytes(m) + extra;
    match m {
        MessageModel::WifiInfo { signal, tx, rx, mcu_temperature } => {
            assert(b.subrange(0, 4) =~= spec_u32_to_le_bytes(signal));
            assert(b.subrange(4, 8) =~= spec_u32_to_le_bytes(tx));
            assert(b.subrange(8, 12) =~= spec_u32_to_le_bytes(rx));
            assert(b.subrange(12, 14) =~= spec_u16_to_le_bytes(mcu_temperature));
            assert(spec_decode_payload(17, b) matches Ok(v) && v =~= m);
        },
        _ => {},
    }
}

proof fn lemma_rt_wifi_firmware(m: MessageModel, extra: Seq<u8>)
    requires
        m matches MessageModel::WifiFirmware { .. },
        spec_msg_wf(m),
        spec_msg_fits(m),
        spec_msg_text_clean(m),
    ensures
        spec_decode_payload(spec_packet_number(m), spec_payload_bytes(m) + extra) == Ok::<
            MessageModel,
            LifxDeserializationError,
        >(m),
{
    lemma_auto_spec_u16_to_from_le_bytes();
    lemma_auto_spec_u32_to_from_le_bytes();
    lemma_auto_spec_u64_to_from_le_bytes();
    lemma_payload_bytes_len(m);
    let b = spec_payload_bytes(m) + extra;
    match m {
        MessageModel::WifiFirmware { build, reserved_6, version_minor, version_major } => {
            assert(b.subrange(0, 8) =~= spec_u64_to_le_bytes(build));
            assert(b.subrange(8, 16) =~= reserved_6);
            assert(b.subrange(16, 18) =~= spec_u16_to_le_bytes(version_minor));
            assert(b.subrange(18, 20) =~= spec_u16_to_le_bytes(version_major));
            assert(spec_decode_payload(19, b) matches Ok(v) && v =~= m);
        },
        _ => {},
    }
}

proof fn lemma_rt_power(m: MessageModel, extra: Seq<u8>)
    requires
        m matches MessageModel::Power { .. },
        spec_msg_wf(m),
        spec_msg_fits(m),
        spec_msg_text_clean(m),
    ensures
        spec_decode_payload(spec_packet_number(m), spec_payload_bytes(m) + extra) == Ok::<
            MessageModel,
            LifxDeserializationError,
        >(m),
{
    lemma_auto_spec_u16_to_from_le_bytes();
    lemma_auto_spec_u32_to_from_le_bytes();
    lemma_auto_spec_u64_to_from_le_bytes();
    lemma_payload_bytes_len(m);
    let b = spec_payload_bytes(m) + extra;
    match m {
        MessageModel::Power { level } => {
            assert(b.subrange(0, 2) =~= spec_u16_to_le_bytes(level));
            assert(spec_decode_payload(22, b) matches Ok(v) && v =~= m);
        },
        _ => {},
    }
}

proof fn lemma_rt_label(m: MessageModel, extra: Seq<u8>)
    requires
        m matches MessageModel::Label { .. },
        spec_msg_wf(m),
        spec_msg_fits(m),
        spec_msg_text_clean(m),
    ensures
        spec_decode_payload(spec_packet_number(m), spec_payload_bytes(m) + extra) == Ok::<
            MessageModel,
            LifxDeserializationError,
        >(m),
{
    lemma_auto_spec_u16_to_from_le_bytes();
    lemma_auto_spec_u32_to_from_le_bytes();
    lemma_auto_spec_u64_to_from_le_bytes();
    lemma_payload_bytes_len(m);
    let b = spec_payload_bytes(m) + extra;
    match m {
        MessageModel::Label { label } => {
            assert(b.subrange(0, 32) =~= spec_text_bytes(label, 32));
            lemma_text_round_trip(label, 32);
            assert(spec_decode_payload(25, b) matches Ok(v) && v =~= m);
        },
        _ => {},
    }
}

proof fn lemma_rt_version(m: MessageModel, extra: Seq<u8>)
    requires
        m matches MessageModel::Version { .. },
        spec_msg_wf(m),
        spec_msg_fits(m),
        spec_msg_text_clean(m),
    ensures
        spec_decode_payload(spec_packet_number(m), spec_payload_bytes(m) + extra) == Ok::<
            MessageModel,
            LifxDeserializationError,
        >(m),
{
    lemma_auto_spec_u16_to_from_le_bytes();
    lemma_auto_spec_u32_to_from_le_bytes();
    lemma_auto_spec_u64_to_from_le_bytes();
    lemma_payload_bytes_len(m);
    let b = spec_payload_bytes(m) + extra;
    match m {
        MessageModel::Version { vendor, product, reserved_6 } => {
            assert(b.subrange(0, 4) =~= spec_u32_to_le_bytes(vendor));
            assert(b.subrange(4, 8) =~= spec_u32_to_le_bytes(product));
            assert(b.subrange(8, 12) =~= spec_u32_to_le_bytes(reserved_6));
            assert(spec_decode_payload(33, b) matches Ok(v) && v =~= m);
        },
        _ => {},
    }
}

proof fn lemma_rt_info(m: MessageModel, extra: Seq<u8>)
    requires
        m matches MessageModel::Info { .. },
        spec_msg_wf(m),
        spec_msg_fits(m),
        spec_msg_text_clean(m),
    ensures
        spec_decode_payload(spec_packet_number(m), spec_payload_bytes(m) + extra) == Ok::<
            MessageModel,
            LifxDeserializationError,
        >(m),
{
    lemma_auto_spec_u16_to_from_le_bytes();
    lemma_auto_spec_u32_to_from_le_bytes();
    lemma_auto_spec_u64_to_from_le_bytes();
    lemma_payload_bytes_len(m);
    let b = spec_payload_bytes(m) + extra;
    match m {
        MessageModel::Info { time, uptime, downtime } => {
            assert(b.subrange(0, 8) =~= spec_u64_to_le_bytes(time));
            assert(b.subrange(8, 16) =~= spec_u64_to_le_bytes(uptime));
            assert(b.subrange(16, 24) =~= spec_u64_to_le_bytes(downtime));
            assert(spec_decode_payload(35, b) matches Ok(v) && v =~= m);
        },
        _ => {},
    }
}

proof fn lemma_rt_location(m: MessageModel, extra: Seq<u8>)
    requires
        m matches MessageModel::Location { .. },
        spec_msg_wf(m),
        spec_msg_fits(m),
        spec_msg_text_clean(m),
    ensures
        spec_decode_payload(spec_packet_number(m), spec_payload_bytes(m) + extra) == Ok::<
            MessageModel,
            LifxDeserializationError,
        >(m),
{
    lemma_auto_spec_u16_to_from_le_bytes();
    lemma_auto_spec_u32_to_from_le_bytes();
    lemma_auto_spec_u64_to_from_le_bytes();
    lemma_payload_bytes_len(m);
    let b = spec_payload_bytes(m) + extra;
    match m {
        MessageModel::Location { location, label, updated_at } => {
            assert(b.subrange(0, 16) =~= location);
            assert(b.subrange(16, 48) =~= spec_text_bytes(label, 32));
            lemma_text_round_trip(label, 32);
            assert(b.subrange(48, 56) =~= spec_u64_to_le_bytes(updated_at));
            assert(spec_decode_payload(50, b) matches Ok(v) && v =~= m);
        },
        _ => {},
    }
}

proof fn lemma_rt_group(m: MessageModel, extra: Seq<u8>)
    requires
        m matches MessageModel::Group { .. },
        spec_msg_wf(m),
        spec_msg_fits(m),
        spec_msg_text_clean(m),
    ensures
        spec_decode_payload(spec_packet_number(m), spec_payload_bytes(m) + extra) == Ok::<
            MessageModel,
            LifxDeserializationError,
        >(m),
{
    lemma_auto_spec_u16_to_from_le_bytes();
    lemma_auto_spec_u32_to_from_le_bytes();
    lemma_auto_spec_u64_to_from_le_bytes();
    lemma_payload_bytes_len(m);
    let b = spec_payload_bytes(m) + extra;
    match m {
        MessageModel::Group { group, label, updated_at } => {
            assert(b.subrange(0, 16) =~= group);
            assert(b.subrange(16, 48) =~= spec_text_bytes(label, 32));
            lemma_text_round_trip(label, 32);
            assert(b.subrange(48, 56) =~= spec_u64_to_le_bytes(updated_at));
            assert(spec_decode_payload(53, b) matches Ok(v) && v =~= m);
        },
        _ => {},
    }
}

proof fn lemma_rt_echo_response(m: MessageModel, extra: Seq<u8>)
    requires
        m matches MessageModel::EchoResponse { .. },
        spec_msg_wf(m),
        spec_msg_fits(m),
        spec_msg_text_clean(m),
    ensures
        spec_decode_payload(spec_packet_number(m), spec_payload_bytes(m) + extra) == Ok::<
            MessageModel,
            LifxDeserializationError,
        >(m),
{
    lemma_auto_spec_u16_to_from_le_bytes();
    lemma_auto_spec_u32_to_from_le_bytes();
    lemma_auto_spec_u64_to_from_le_bytes();
    lemma_payload_bytes_len(m);
    let b = spec_payload_bytes(m) + extra;
    match m {
        MessageModel::EchoResponse { echoing } => {
            assert(b.subrange(0, 64) =~= echoing);
            assert(spec_decode_payload(59, b) matches Ok(v) && v =~= m);
        },
        _ => {},
    }
}

proof fn lemma_rt_unhandled(m: MessageModel, extra: Seq<u8>)
    requires
        m matches MessageModel::Unhandled { .. },
        spec_msg_wf(m),
        spec_msg_fits(m),
        spec_msg_text_clean(m),
    ensures
        spec_decode_payload(spec_packet_number(m), spec_payload_bytes(m) + extra) == Ok::<
            MessageModel,
            LifxDeserializationError,
        >(m),
{
    lemma_auto_spec_u16_to_from_le_bytes();
    lemma_auto_spec_u32_to_from_le_bytes();
    lemma_auto_spec_u64_to_from_le_bytes();
    lemma_payload_bytes_len(m);
    let b = spec_payload_bytes(m) + extra;
    match m {
        MessageModel::Unhandled { unhandled_type } => {
            assert(b.subrange(0, 2) =~= spec_u16_to_le_bytes(unhandled_type));
            assert(spec_decode_payload(223, b) matches Ok(v) && v =~= m);
        },
        _ => {},
    }
}

proof fn lemma_rt_light_state(m: MessageModel, extra: Seq<u8>)
    requires
        m matches MessageModel::LightState { .. },
        spec_msg_wf(m),
        spec_msg_fits(m),
        spec_msg_text_clean(m),
    ensures
        spec_decode_payload(spec_packet_number(m), spec_payload_bytes(m) + extra) == Ok::<
            MessageModel,
            LifxDeserializationError,
        >(m),
{
    lemma_auto_spec_u16_to_from_le_bytes();
    lemma_auto_spec_u32_to_from_le_bytes();
    lemma_auto_spec_u64_to_from_le_bytes();
    lemma_payload_bytes_len(m);
    let b = spec_payload_bytes(m) + extra;
    match m {
        MessageModel::LightState { hue, saturation, brightness, kelvin, reserved_6, power, label, reserved_7 } => {
            assert(b.subrange(0, 2) =~= spec_u16_to_le_bytes(hue));
            assert(b.subrange(2, 4) =~= spec_u16_to_le_bytes(saturation));
            assert(b.subrange(4, 6) =~= spec_u16_to_le_bytes(brightness));
            assert(b.subrange(6, 8) =~= spec_u16_to_le_bytes(kelvin));
            assert(b.subrange(8, 10) =~= reserved_6);
            assert(b.subrange(10, 12) =~= spec_u16_to_le_bytes(power));
            assert(b.subrange(12, 44) =~= spec_text_bytes(label, 32));
            lemma_text_round_trip(label, 32);
            assert(b.subrange(44, 52) =~= reserved_7);
            assert(spec_decode_payload(107, b) matches Ok(v) && v =~= m);
        },
        _ => {},
    }
}

proof fn lemma_rt_light_power(m: MessageModel, extra: Seq<u8>)
    requires
        m matches MessageModel::LightPower { .. },
        spec_msg_wf(m),
        spec_msg_fits(m),
        spec_msg_text_clean(m),
    ensures
        spec_decode_payload(spec_packet_number(m), spec_payload_bytes(m) + extra) == Ok::<
            MessageModel,
            LifxDeserializationError,
        >(m),
{
    lemma_auto_spec_u16_to_from_le_bytes();
    lemma_auto_spec_u32_to_from_le_bytes();
    lemma_auto_spec_u64_to_from_le_bytes();
    lemma_payload_bytes_len(m);
    let b = spec_payload_bytes(m) + extra;
    match m {
        MessageModel::LightPower { level } => {
            assert(b.subrange(0, 2) =~= spec_u16_to_le_bytes(level));
            assert(spec_decode_payload(118, b) matches Ok(v) && v =~= m);
        },
        _ => {},
    }
}

proof fn lemma_rt_infrared(m: MessageModel, extra: Seq<u8>)
    requires
        m matches MessageModel::Infrared { .. },
        spec_msg_wf(m),
        spec_msg_fits(m),
        spec_msg_text_clean(m),
    ensures
        spec_decode_payload(spec_packet_number(m), spec_payload_bytes(m) + extra) == Ok::<
            MessageModel,
            LifxDeserializationError,
        >(m),
{
    lemma_auto_spec_u16_to_from_le_bytes();
    lemma_auto_spec_u32_to_from_le_bytes();
    lemma_auto_spec_u64_to_from_le_bytes();
    lemma_payload_bytes_len(m);
    let b = spec_payload_bytes(m) + extra;
    match m {
        MessageModel::Infrared { brightness } => {
            assert(b.subrange(0, 2) =~= spec_u16_to_le_bytes(brightness));
            assert(spec_decode_payload(121, b) matches Ok(v) && v =~= m);
        },
        _ => {},
    }
}

proof fn lemma_rt_hev_cycle(m: MessageModel, extra: Seq<u8>)
    requires
        m matches MessageModel::HevCycle { .. },
        spec_msg_wf(m),
        spec_msg_fits(m),
        spec_msg_text_clean(m),
    ensures
        spec_decode_payload(spec_packet_number(m), spec_payload_bytes(m) + extra) == Ok::<
            MessageModel,
            LifxDeserializationError,
        >(m),
{
    lemma_auto_spec_u16_to_from_le_bytes();
    lemma_auto_spec_u32_to_from_le_bytes();
    lemma_auto_spec_u64_to_from_le_bytes();
    lemma_payload_bytes_len(m);
    let b = spec_payload_bytes(m) + extra;
    match m {
        MessageModel::HevCycle { duration_s, remaining_s, last_power } => {
            assert(b.subrange(0, 4) =~= spec_u32_to_le_bytes(duration_s));
            assert(b.subrange(4, 8) =~= spec_u32_to_le_bytes(remaining_s));
            assert(b[8] == last_power);
            assert(spec_decode_payload(144, b) matches Ok(v) && v =~= m);
        },
        _ => {},
    }
}

proof fn lemma_rt_hev_cycle_config(m: MessageModel, extra: Seq<u8>)
    requires
        m matches MessageModel::HevCycleConfig { .. },
        spec_msg_wf(m),
        spec_msg_fits(m),
        spec_msg_text_clean(m),
    ensures
        spec_decode_payload(spec_packet_number(m), spec_payload_bytes(m) + extra) == Ok::<
            MessageModel,
            LifxDeserializationError,
        >(m),
{
    lemma_auto_spec_u16_to_from_le_bytes();
    lemma_auto_spec_u32_to_from_le_bytes();
    lemma_auto_spec_u64_to_from_le_bytes();
    lemma_payload_bytes_len(m);
    let b = spec_payload_bytes(m) + extra;
    match m {
        MessageModel::HevCycleConfig { indication, duration_s } => {
            assert(b[0] == indication);
            assert(b.subrange(1, 5) =~= spec_u32_to_le_bytes(duration_s));
            assert(spec_decode_payload(147, b) matches Ok(v) && v =~= m);
        },
        _ => {},
    }
}

proof fn lemma_rt_last_hev_cycle_result(m: MessageModel, extra: Seq<u8>)
    requires
        m matches MessageModel::LastHevCycleResult { .. },
        spec_msg_wf(m),
        spec_msg_fits(m),
        spec_msg_text_clean(m),
    ensures
        spec_decode_payload(spec_packet_number(m), spec_payload_bytes(m) + extra) == Ok::<
            MessageModel,
            LifxDeserializationError,
        >(m),
{
    lemma_auto_spec_u16_to_from_le_bytes();
    lemma_auto_spec_u32_to_from_le_bytes();
    lemma_auto_spec_u64_to_from_le_bytes();
    lemma_payload_bytes_len(m);
    let b = spec_payload_bytes(m) + extra;
    match m {
        MessageModel::LastHevCycleResult { result } => {
            assert(b[0] == result);
            assert(spec_decode_payload(149, b) matches Ok(v) && v =~= m);
        },
        _ => {},
    }
}

proof fn lemma_rt_set_power(m: MessageModel, extra: Seq<u8>)
    requires
        m matches MessageModel::SetPower { .. },
        spec_msg_wf(m),
        spec_msg_fits(m),
        spec_msg_text_clean(m),
    ensures
        spec_decode_payload(spec_packet_number(m), spec_payload_bytes(m) + extra) == Ok::<
            MessageModel,
            LifxDeserializationError,
        >(m),
{
    lemma_auto_spec_u16_to_from_le_bytes();
    lemma_auto_spec_u32_to_from_le_bytes();
    lemma_auto_spec_u64_to_from_le_bytes();
    lemma_payload_bytes_len(m);
    let b = spec_payload_bytes(m) + extra;
    match m {
        MessageModel::SetPower { level } => {
            assert(b.subrange(0, 2) =~= spec_u16_to_le_bytes(level));
            assert(spec_decode_payload(21, b) matches Ok(v) && v =~= m);
        },
        _ => {},
    }
}

proof fn lemma_rt_set_label(m: MessageModel, extra: Seq<u8>)
    requires
        m matches MessageModel::SetLabel { .. },
        spec_msg_wf(m),
        spec_msg_fits(m),
        spec_msg_text_clean(m),
    ensures
        spec_decode_payload(spec_packet_number(m), spec_payload_bytes(m) + extra) == Ok::<
            MessageModel,
            LifxDeserializationError,
        >(m),
{
    lemma_auto_spec_u16_to_from_le_bytes();
    lemma_auto_spec_u32_to_from_le_bytes();
    lemma_auto_spec_u64_to_from_le_bytes();
    lemma_payload_bytes_len(m);
    let b = spec_payload_bytes(m) + extra;
    match m {
        MessageModel::SetLabel { label } => {
            assert(b.subrange(0, 32) =~= spec_text_bytes(label, 32));
            lemma_text_round_trip(label, 32);
            assert(spec_decode_payload(24, b) matches Ok(v) && v =~= m);
        },
        _ => {},
    }
}

proof fn lemma_rt_set_location(m: MessageModel, extra: Seq<u8>)
    requires
        m matches MessageModel::SetLocation { .. },
        spec_msg_wf(m),
        spec_msg_fits(m),
        spec_msg_text_clean(m),
    ensures
        spec_decode_payload(spec_packet_number(m), spec_payload_bytes(m) + extra) == Ok::<
            MessageModel,
            LifxDeserializationError,
        >(m),
{
    lemma_auto_spec_u16_to_from_le_bytes();
    lemma_auto_spec_u32_to_from_le_bytes();
    lemma_auto_spec_u64_to_from_le_bytes();
    lemma_payload_bytes_len(m);
    let b = spec_payload_bytes(m) + extra;
    match m {
        MessageModel::SetLocation { location, label, updated_at } => {
            assert(b.subrange(0, 16) =~= location);
            assert(b.subrange(16, 48) =~= spec_text_bytes(label, 32));
            lemma_text_round_trip(label, 32);
            assert(b.subrange(48, 56) =~= spec_u64_to_le_bytes(updated_at));
            assert(spec_decode_payload(49, b) matches Ok(v) && v =~= m);
        },
        _ => {},
    }
}

proof fn lemma_rt_set_group(m: MessageModel, extra: Seq<u8>)
    requires
        m matches MessageModel::SetGroup { .. },
        spec_msg_wf(m),
        spec_msg_fits(m),
        spec_msg_text_clean(m),
    ensures
        spec_decode_payload(spec_packet_number(m), spec_payload_bytes(m) + extra) == Ok::<
            MessageModel,
            LifxDeserializationError,
        >(m),
{
    lemma_auto_spec_u16_to_from_le_bytes();
    lemma_auto_spec_u32_to_from_le_bytes();
    lemma_auto_spec_u64_to_from_le_bytes();
    lemma_payload_bytes_len(m);
    let b = spec_payload_bytes(m) + extra;
    match m {
        MessageModel::SetGroup { group, label, updated_at } => {
            assert(b.subrange(0, 16) =~= group);
            assert(b.subrange(16, 48) =~= spec_text_bytes(label, 32));
            lemma_text_round_trip(label, 32);
            assert(b.subrange(48, 56) =~= spec_u64_to_le_bytes(updated_at));
            assert(spec_decode_payload(52, b) matches Ok(v) && v =~= m);
        },
        _ => {},
    }
}

proof fn lemma_rt_echo_request(m: MessageModel, extra: Seq<u8>)
    requires
        m matches MessageModel::EchoRequest { .. },
        spec_msg_wf(m),
        spec_msg_fits(m),
        spec_msg_text_clean(m),
    ensures
        spec_decode_payload(spec_packet_number(m), spec_payload_bytes(m) + extra) == Ok::<
            MessageModel,
            LifxDeserializationError,
        >(m),
{
    lemma_auto_spec_u16_to_from_le_bytes();
    lemma_auto_spec_u32_to_from_le_bytes();
    lemma_auto_spec_u64_to_from_le_bytes();
    lemma_payload_bytes_len(m);
    let b = spec_payload_bytes(m) + extra;
    match m {
        MessageModel::EchoRequest { echoing } => {
            assert(b.subrange(0, 64) =~= echoing);
            assert(spec_decode_payload(58, b) matches Ok(v) && v =~= m);
        },
        _ => {},
    }
}

proof fn lemma_rt_set_color(m: MessageModel, extra: Seq<u8>)
    requires
        m matches MessageModel::SetColor { .. },
        spec_msg_wf(m),
        spec_msg_fits(m),
        spec_msg_text_clean(m),
    ensures
        spec_decode_payload(spec_packet_number(m), spec_payload_bytes(m) + extra) == Ok::<
            MessageModel,
            LifxDeserializationError,
        >(m),
{
    lemma_auto_spec_u16_to_from_le_bytes();
    lemma_auto_spec_u32_to_from_le_bytes();
    lemma_auto_spec_u64_to_from_le_bytes();
    lemma_payload_bytes_len(m);
    let b = spec_payload_bytes(m) + extra;
    match m {
        MessageModel::SetColor { reserved_6, hue, saturation, brightness, kelvin, duration_ms } => {
            assert(b[0] == reserved_6);
            assert(b.subrange(1, 3) =~= spec_u16_to_le_bytes(hue));
            assert(b.subrange(3, 5) =~= spec_u16_to_le_bytes(saturation));
            assert(b.subrange(5, 7) =~= spec_u16_to_le_bytes(brightness));
            assert(b.subrange(7, 9) =~= spec_u16_to_le_bytes(kelvin));
            assert(b.subrange(9, 13) =~= spec_u32_to_le_bytes(duration_ms));
            assert(spec_decode_payload(102, b) matches Ok(v) && v =~= m);
        },
        _ => {},
    }
}

proof fn lemma_rt_set_waveform(m: MessageModel, extra: Seq<u8>)
    requires
        m matches MessageModel::SetWaveform { .. },
        spec_msg_wf(m),
        spec_msg_fits(m),
        spec_msg_text_clean(m),
    ensures
        spec_decode_payload(spec_packet_number(m), spec_payload_bytes(m) + extra) == Ok::<
            MessageModel,
            LifxDeserializationError,
        >(m),
{
    lemma_auto_spec_u16_to_from_le_bytes();
    lemma_auto_spec_u32_to_from_le_bytes();
    lemma_auto_spec_u64_to_from_le_bytes();
    lemma_payload_bytes_len(m);
    let b = spec_payload_bytes(m) + extra;
    match m {
        MessageModel::SetWaveform { reserved_6, transient, hue, saturation, brightness, kelvin, period_ms, cycles, skew_ratio, waveform } => {
            assert(b[0] == reserved_6);
            assert(b[1] == transient);
            assert(b.subrange(2, 4) =~= spec_u16_to_le_bytes(hue));
            assert(b.subrange(4, 6) =~= spec_u16_to_le_bytes(saturation));
            assert(b.subrange(6, 8) =~= spec_u16_to_le_bytes(brightness));
            assert(b.subrange(8, 10) =~= spec_u16_to_le_bytes(kelvin));
            assert(b.subrange(10, 14) =~= spec_u32_to_le_bytes(period_ms));
            assert(b.subrange(14, 18) =~= spec_u32_to_le_bytes(cycles));
            assert(b.subrange(18, 20) =~= spec_i16_to_le_bytes(skew_ratio));
            lemma_i16_round_trip(skew_ratio);
            assert(b[20] == waveform);
            assert(spec_decode_payload(103, b) matches Ok(v) && v =~= m);
        },
        _ => {},
    }
}

proof fn lemma_rt_set_light_power(m: MessageModel, extra: Seq<u8>)
    requires
        m matches MessageModel::SetLightPower { .. },
        spec_msg_wf(m),
        spec_msg_fits(m),
        spec_msg_text_clean(m),
    ensures
        spec_decode_payload(spec_packet_number(m), spec_payload_bytes(m) + extra) == Ok::<
            MessageModel,
            LifxDeserializationError,
        >(m),
{
    lemma_auto_spec_u16_to_from_le_bytes();
    lemma_auto_spec_u32_to_from_le_bytes();
    lemma_auto_spec_u64_to_from_le_bytes();
    lemma_payload_bytes_len(m);
    let b = spec_payload_bytes(m) + extra;
    match m {
        MessageModel::SetLightPower { level, duration_ms } => {
            assert(b.subrange(0, 2) =~= spec_u16_to_le_bytes(level));
            assert(b.subrange(2, 6) =~= spec_u32_to_le_bytes(duration_ms));
            assert(spec_decode_payload(117, b) matches Ok(v) && v =~= m);
        },
        _ => {},
    }
}

proof fn lemma_rt_set_waveform_optional(m: MessageModel, extra: Seq<u8>)
    requires
        m matches MessageModel::SetWaveformOptional { .. },
        spec_msg_wf(m),
        spec_msg_fits(m),
        spec_msg_text_clean(m),
    ensures
        spec_decode_payload(spec_packet_number(m), spec_payload_bytes(m) + extra) == Ok::<
            MessageModel,
            LifxDeserializationError,
        >(m),
{
    lemma_auto_spec_u16_to_from_le_bytes();
    lemma_auto_spec_u32_to_from_le_bytes();
    lemma_auto_spec_u64_to_from_le_bytes();
    lemma_payload_bytes_len(m);
    let b = spec_payload_bytes(m) + extra;
    match m {
        MessageModel::SetWaveformOptional { reserved_6, transient, hue, saturation, brightness, kelvin, period_ms, cycles, skew_ratio, waveform, set_hue, set_saturation, set_brightness, set_kelvin } => {
            assert(b[0] == reserved_6);
            assert(b[1] == transient);
            assert(b.subrange(2, 4) =~= spec_u16_to_le_bytes(hue));
            assert(b.subrange(4, 6) =~= spec_u16_to_le_bytes(saturation));
            assert(b.subrange(6, 8) =~= spec_u16_to_le_bytes(brightness));
            assert(b.subrange(8, 10) =~= spec_u16_to_le_bytes(kelvin));
            assert(b.subrange(10, 14) =~= spec_u32_to_le_bytes(period_ms));
            assert(b.subrange(14, 18) =~= spec_u32_to_le_bytes(cycles));
            assert(b.subrange(18, 20) =~= spec_i16_to_le_bytes(skew_ratio));
            lemma_i16_round_trip(skew_ratio);
            assert(b[20] == waveform);
            assert(b[21] == set_hue);
            assert(b[22] == set_saturation);
            assert(b[23] == set_brightness);
            assert(b[24] == set_kelvin);
            assert(spec_decode_payload(119, b) matches Ok(v) && v =~= m);
        },
        _ => {},
    }
}

proof fn lemma_rt_set_infrared(m: MessageModel, extra: Seq<u8>)
    requires
        m matches MessageModel::SetInfrared { .. },
        spec_msg_wf(m),
        spec_msg_fits(m),
        spec_msg_text_clean(m),
    ensures
        spec_decode_payload(spec_packet_number(m), spec_payload_bytes(m) + extra) == Ok::<
            MessageModel,
            LifxDeserializationError,
        >(m),
{
    lemma_auto_spec_u16_to_from_le_bytes();
    lemma_auto_spec_u32_to_from_le_bytes();
    lemma_auto_spec_u64_to_from_le_bytes();
    lemma_payload_bytes_len(m);
    let b = spec_payload_bytes(m) + extra;
    match m {
        MessageModel::SetInfrared { brightness } => {
            assert(b.subrange(0, 2) =~= spec_u16_to_le_bytes(brightness));
            assert(spec_decode_payload(122, b) matches Ok(v) && v =~= m);
        },
        _ => {},
    }
}

proof fn lemma_rt_set_hev_cycle(m: MessageModel, extra: Seq<u8>)
    requires
        m matches MessageModel::SetHevCycle { .. },
        spec_msg_wf(m),
        spec_msg_fits(m),
        spec_msg_text_clean(m),
    ensures
        spec_decode_payload(spec_packet_number(m), spec_payload_bytes(m) + extra) == Ok::<
            MessageModel,
            LifxDeserializationError,
        >(m),
{
    lemma_auto_spec_u16_to_from_le_bytes();
    lemma_auto_spec_u32_to_from_le_bytes();
    lemma_auto_spec_u64_to_from_le_bytes();
    lemma_payload_bytes_len(m);
    let b = spec_payload_bytes(m) + extra;
    match m {
        MessageModel::SetHevCycle { duration_s } => {
            assert(b.subrange(0, 4) =~= spec_u32_to_le_bytes(duration_s));
            assert(spec_decode_payload(143, b) matches Ok(v) && v =~= m);
        },
        _ => {},
    }
}

proof fn lemma_rt_set_hev_cycle_configuration(m: MessageModel, extra: Seq<u8>)
    requires
        m matches MessageModel::SetHevCycleConfiguration { .. },
        spec_msg_wf(m),
        spec_msg_fits(m),
        spec_msg_text_clean(m),
    ensures
        spec_decode_payload(spec_packet_number(m), spec_payload_bytes(m) + extra) == Ok::<
            MessageModel,
            LifxDeserializationError,
        >(m),
{
    lemma_auto_spec_u16_to_from_le_bytes();
    lemma_auto_spec_u32_to_from_le_bytes();
    lemma_auto_spec_u64_to_from_le_bytes();
    lemma_payload_bytes_len(m);
    let b = spec_payload_bytes(m) + extra;
    match m {
        MessageModel::SetHevCycleConfiguration { indication, duration_s } => {
            assert(b[0] == indication);
            assert(b.subrange(1, 5) =~= spec_u32_to_le_bytes(duration_s));
            assert(spec_decode_payload(146, b) matches Ok(v) && v =~= m);
        },
        _ => {},
    }
}

proof fn lemma_rt_set_access_point(m: MessageModel, extra: Seq<u8>)
    requires
        m matches MessageModel::SetAccessPoint { .. },
        spec_msg_wf(m),
        spec_msg_fits(m),
        spec_msg_text_clean(m),
    ensures
        spec_decode_payload(spec_packet_number(m), spec_payload_bytes(m) + extra) == Ok::<
            MessageModel,
            LifxDeserializationError,
        >(m),
{
    lemma_auto_spec_u16_to_from_le_bytes();
    lemma_auto_spec_u32_to_from_le_bytes();
    lemma_auto_spec_u64_to_from_le_bytes();
    lemma_payload_bytes_len(m);
    let b = spec_payload_bytes(m) + extra;
    match m {
        MessageModel::SetAccessPoint { interface, ssid, password, protocol } => {
            assert(b[0] == interface);
            assert(b.subrange(1, 33) =~= spec_text_bytes(ssid, 32));
            lemma_text_round_trip(ssid, 32);
            assert(b.subrange(33, 97) =~= spec_text_bytes(password, 64));
            lemma_text_round_trip(password, 64);
            assert(b[97] == protocol);
            assert(spec_decode_payload(305, b) matches Ok(v) && v =~= m);
        },
        _ => {},
    }
}

/// Payload round trip: a well-formed message whose text fits its fields and
/// holds no zero byte decodes, under its own packet number, back to itself
/// from its encoded payload -- whatever trailing bytes follow it.
pub proof fn lemma_payload_round_trip(m: MessageModel, extra: Seq<u8>)
    requires
        spec_msg_wf(m),
        spec_msg_fits(m),
        spec_msg_text_clean(m),
    ensures
        spec_decode_payload(spec_packet_number(m), spec_payload_bytes(m) + extra) == Ok::<
            MessageModel,
            LifxDeserializationError,
        >(m),
{
    match m {
        MessageModel::Service { .. } => lemma_rt_service(m, extra),
        MessageModel::StateService { .. } => lemma_rt_state_service(m, extra),
        MessageModel::GetMeshInfo { .. } => {
            assert(spec_payload_bytes(m) + extra =~= extra.subrange(0, extra.len() as int));
            assert(spec_decode_payload(12, spec_payload_bytes(m) + extra) matches Ok(v) && v
                =~= m);
        },
        MessageModel::MeshInfo { .. } => lemma_rt_mesh_info(m, extra),
        MessageModel::HostFirmware { .. } => lemma_rt_host_firmware(m, extra),
        MessageModel::WifiInfo { .. } => lemma_rt_wifi_info(m, extra),
        MessageModel::WifiFirmware { .. } => lemma_rt_wifi_firmware(m, extra),
        MessageModel::Power { .. } => lemma_rt_power(m, extra),
        MessageModel::Label { .. } => lemma_rt_label(m, extra),
        MessageModel::Version { .. } => lemma_rt_version(m, extra),
        MessageModel::Info { .. } => lemma_rt_info(m, extra),
        MessageModel::Location { .. } => lemma_rt_location(m, extra),
        MessageModel::Group { .. } => lemma_rt_group(m, extra),
        MessageModel::EchoResponse { .. } => lemma_rt_echo_response(m, extra),
        MessageModel::Unhandled { .. } => lemma_rt_unhandled(m, extra),
        MessageModel::LightState { .. } => lemma_rt_light_state(m, extra),
        MessageModel::LightPower { .. } => lemma_rt_light_power(m, extra),
        MessageModel::Infrared { .. } => lemma_rt_infrared(m, extra),
        MessageModel::HevCycle { .. } => lemma_rt_hev_cycle(m, extra),
        MessageModel::HevCycleConfig { .. } => lemma_rt_hev_cycle_config(m, extra),
        MessageModel::LastHevCycleResult { .. } => lemma_rt_last_hev_cycle_result(m, extra),
        MessageModel::GetService => {
            assert(spec_payload_bytes(m) + extra =~= extra.subrange(0, extra.len() as int));
            assert(spec_decode_payload(2, spec_payload_bytes(m) + extra) matches Ok(v) && v
                =~= m);
        },
        MessageModel::GetHostFirmware => {
            assert(spec_payload_bytes(m) + extra =~= extra.subrange(0, extra.len() as int));
            assert(spec_decode_payload(14, spec_payload_bytes(m) + extra) matches Ok(v) && v
                =~= m);
        },
        MessageModel::GetWifiInfo => {
            assert(spec_payload_bytes(m) + extra =~= extra.subrange(0, extra.len() as int));
            assert(spec_decode_payload(16, spec_payload_bytes(m) + extra) matches Ok(v) && v
                =~= m);
        },
        MessageModel::GetWifiFirmware => {
            assert(spec_payload_bytes(m) + extra =~= extra.subrange(0, extra.len() as int));
            assert(spec_decode_payload(18, spec_payload_bytes(m) + extra) matches Ok(v) && v
                =~= m);
        },
        MessageModel::GetPower => {
            assert(spec_payload_bytes(m) + extra =~= extra.subrange(0, extra.len() as int));
            assert(spec_decode_payload(20, spec_payload_bytes(m) + extra) matches Ok(v) && v
                =~= m);
        },
        MessageModel::SetPower { .. } => lemma_rt_set_power(m, extra),
        MessageModel::GetLabel => {
            assert(spec_payload_bytes(m) + extra =~= extra.subrange(0, extra.len() as int));
            assert(spec_decode_payload(23, spec_payload_bytes(m) + extra) matches Ok(v) && v
                =~= m);
        },
        MessageModel::SetLabel { .. } => lemma_rt_set_label(m, extra),
        MessageModel::GetVersion => {
            assert(spec_payload_bytes(m) + extra =~= extra.subrange(0, extra.len() as int));
            assert(spec_decode_payload(32, spec_payload_bytes(m) + extra) matches Ok(v) && v
                =~= m);
        },
        MessageModel::GetInfo => {
            assert(spec_payload_bytes(m) + extra =~= extra.subrange(0, extra.len() as int));
            assert(spec_decode_payload(34, spec_payload_bytes(m) + extra) matches Ok(v) && v
                =~= m);
        },
        MessageModel::SetReboot => {
            assert(spec_payload_bytes(m) + extra =~= extra.subrange(0, extra.len() as int));
            assert(spec_decode_payload(38, spec_payload_bytes(m) + extra) matches Ok(v) && v
                =~= m);
        },
        MessageModel::GetLocation => {
            assert(spec_payload_bytes(m) + extra =~= extra.subrange(0, extra.len() as int));
            assert(spec_decode_payload(48, spec_payload_bytes(m) + extra) matches Ok(v) && v
                =~= m);
        },
        MessageModel::SetLocation { .. } => lemma_rt_set_location(m, extra),
        MessageModel::GetGroup => {
            assert(spec_payload_bytes(m) + extra =~= extra.subrange(0, extra.len() as int));
            assert(spec_decode_payload(51, spec_payload_bytes(m) + extra) matches Ok(v) && v
                =~= m);
        },
        MessageModel::SetGroup { .. } => lemma_rt_set_group(m, extra),
        MessageModel::EchoRequest { .. } => lemma_rt_echo_request(m, extra),
        MessageModel::GetColor => {
            assert(spec_payload_bytes(m) + extra =~= extra.subrange(0, extra.len() as int));
            assert(spec_decode_payload(101, spec_payload_bytes(m) + extra) matches Ok(v) && v
                =~= m);
        },
        MessageModel::SetColor { .. } => lemma_rt_set_color(m, extra),
        MessageModel::SetWaveform { .. } => lemma_rt_set_waveform(m, extra),
        MessageModel::GetLightPower => {
            assert(spec_payload_bytes(m) + extra =~= extra.subrange(0, extra.len() as int));
            assert(spec_decode_payload(116, spec_payload_bytes(m) + extra) matches Ok(v) && v
                =~= m);
        },
        MessageModel::SetLightPower { .. } => lemma_rt_set_light_power(m, extra),
        MessageModel::SetWaveformOptional { .. } => lemma_rt_set_waveform_optional(m, extra),
        MessageModel::GetInfrared => {
            assert(spec_payload_bytes(m) + extra =~= extra.subrange(0, extra.len() as int));
            assert(spec_decode_payload(120, spec_payload_bytes(m) + extra) matches Ok(v) && v
                =~= m);
        },
        MessageModel::SetInfrared { .. } => lemma_rt_set_infrared(m, extra),
        MessageModel::GetHevCycle => {
            assert(spec_payload_bytes(m) + extra =~= extra.subrange(0, extra.len() as int));
            assert(spec_decode_payload(142, spec_payload_bytes(m) + extra) matches Ok(v) && v
                =~= m);
        },
        MessageModel::SetHevCycle { .. } => lemma_rt_set_hev_cycle(m, extra),
        MessageModel::GetHevCycleConfiguration => {
            assert(spec_payload_bytes(m) + extra =~= extra.subrange(0, extra.len() as int));
            assert(spec_decode_payload(145, spec_payload_bytes(m) + extra) matches Ok(v) && v
                =~= m);
        },
        MessageModel::SetHevCycleConfiguration { .. } => lemma_rt_set_hev_cycle_configuration(m, extra),
        MessageModel::GetLastHevCycleResult => {
            assert(spec_payload_bytes(m) + extra =~= extra.subrange(0, extra.len() as int));
            assert(spec_decode_payload(148, spec_payload_bytes(m) + extra) matches Ok(v) && v
                =~= m);
        },
        MessageModel::SetAccessPoint { .. } => lemma_rt_set_access_point(m, extra),
    }
}

/// Packet round trip: the datagram built from request options and a message
/// reads back, field by field, to exactly what it was built from -- the size
/// field is 36 plus the payload size, protocol id 1024 with `addressable`
/// set and origin 0, the `tagged`, `ack_required` and `res_required` flags,
/// `source`, `target` and `sequence` are preserved bit for bit, the packet
/// number at offset 32 selects the message's own variant, and the payload
/// after the header decodes back to the message itself.
pub proof fn lemma_packet_round_trip(o: LifxRequestOptions, m: MessageModel, extra: Seq<u8>)
    requires
        spec_msg_wf(m),
        spec_msg_fits(m),
        spec_msg_text_clean(m),
    ensures
        ({
            let b = spec_packet_bytes(o, m) + extra;
            &&& b.len() == 36 + spec_payload_size(m) + extra.len()
            &&& spec_u16_from_le_bytes(b.subrange(0, 2)) == 36 + spec_payload_size(m)
            &&& (spec_u16_from_le_bytes(b.subrange(2, 4)) & 0x0FFF) == 1024
            &&& (spec_u16_from_le_bytes(b.subrange(2, 4)) & 0x1000) != 0
            &&& ((spec_u16_from_le_bytes(b.subrange(2, 4)) & 0x2000) != 0) == o.tagged
            &&& (spec_u16_from_le_bytes(b.subrange(2, 4)) >> 14) as u8 == 0
            &&& spec_u32_from_le_bytes(b.subrange(4, 8)) == o.source
            &&& b.subrange(8, 16) == o.target@
            &&& b[22] == spec_options_flags_byte(o)
            &&& ((b[22] & 0x40) != 0) == o.ack_required
            &&& ((b[22] & 0x80) != 0) == o.res_required
            &&& b[23] == o.sequence
            &&& spec_u16_from_le_bytes(b.subrange(32, 34)) == spec_packet_number(m)
            &&& spec_decode_payload(spec_u16_from_le_bytes(b.subrange(32, 34)), b.skip(36))
                == Ok::<MessageModel, LifxDeserializationError>(m)
        }),
{
    lemma_auto_spec_u16_to_from_le_bytes();
    lemma_auto_spec_u32_to_from_le_bytes();
    lemma_payload_bytes_len(m);
    lemma_payload_size_bounds(m);
    let h = spec_request_header_bytes(o, m);
    let b = spec_packet_bytes(o, m) + extra;
    let sz = (36 + spec_payload_size(m)) as u16;
    assert(h.len() == 36);
    assert(b.subrange(0, 2) =~= spec_u16_to_le_bytes(sz));
    assert(b.subrange(2, 4) =~= spec_u16_to_le_bytes(
        if o.tagged {
            0x3400u16
        } else {
            0x1400u16
        },
    ));
    assert((0x3400u16 & 0x0FFF) == 1024 && (0x3400u16 & 0x1000) != 0 && (0x3400u16 & 0x2000) != 0
        && (0x3400u16 >> 14) == 0) by (bit_vector);
    assert((0x1400u16 & 0x0FFF) == 1024 && (0x1400u16 & 0x1000) != 0 && (0x1400u16 & 0x2000) == 0
        && (0x1400u16 >> 14) == 0) by (bit_vector);
    assert(b.subrange(4, 8) =~= spec_u32_to_le_bytes(o.source));
    assert(b.subrange(8, 16) =~= o.target@);
    assert(b[22] == spec_options_flags_byte(o));
    if o.ack_required {
        if o.res_required {
            assert((0x40u8 | 0x80u8) == 0xC0u8 && (0xC0u8 & 0x40) != 0 && (0xC0u8 & 0x80) != 0)
                by (bit_vector);
        } else {
            assert((0x40u8 | 0u8) == 0x40u8 && (0x40u8 & 0x40) != 0 && (0x40u8 & 0x80) == 0)
                by (bit_vector);
        }
    } else {
        if o.res_required {
            assert((0u8 | 0x80u8) == 0x80u8 && (0x80u8 & 0x40) == 0 && (0x80u8 & 0x80) != 0)
                by (bit_vector);
        } else {
            assert((0u8 | 0u8) == 0u8 && (0u8 & 0x40) == 0 && (0u8 & 0x80) == 0) by (bit_vector);
        }
    }
    assert(b[23] == o.sequence);
    assert(b.subrange(32, 34) =~= spec_u16_to_le_bytes(spec_packet_number(m)));
    assert(b.skip(36) =~= spec_payload_bytes(m) + extra);
    lemma_payload_round_trip(m, extra);
}

} // verus!
