//! The payload codec: the byte-exact image of every message variant and the
//! decoder that rebuilds a message from a packet number and a byte buffer.
//!
//! Each variant's fields are laid out back to back at fixed offsets, in
//! declaration order, all multi-byte scalars little-endian.  Decoding checks
//! the packet number first, then the buffer length, and only then reads
//! fields, so a malformed buffer can never cause an out-of-bounds access.
use vstd::prelude::*;

use vstd::bytes::{
    lemma_auto_spec_u16_to_from_le_bytes, lemma_auto_spec_u32_to_from_le_bytes,
    lemma_auto_spec_u64_to_from_le_bytes, spec_u16_from_le_bytes, spec_u16_to_le_bytes,
    spec_u32_from_le_bytes, spec_u32_to_le_bytes, spec_u64_from_le_bytes, spec_u64_to_le_bytes,
};
use vstd::slice::slice_subrange;

use crate::error::LifxDeserializationError;
use crate::error::LifxSerializationError;
use crate::messages::{
    spec_known_packet_number, spec_msg_fits, spec_msg_wf, spec_packet_number, spec_packet_payload_size,
    spec_payload_size, LifxPayload, Message, MessageModel,
};
use crate::wire::{
    deserialize_string, lemma_splice_adjacent, read_array, read_i16, read_u16, read_u32, read_u64,
    read_u8, spec_i16_from_le_bytes, spec_i16_to_le_bytes, spec_read_text, spec_splice,
    spec_text_bytes, spec_text_fits, write_bytes, write_i16, write_text, write_u16, write_u32,
    write_u64, write_u8,
};

verus! {

/// The exact byte image of a message's payload: its fields laid out back to
/// back, in declaration order.
pub open spec fn spec_payload_bytes(m: MessageModel) -> Seq<u8> {
    match m {
        MessageModel::Service { service, port } => seq![service] + spec_u32_to_le_bytes(port),
        MessageModel::StateService { service, port } => seq![service] + spec_u32_to_le_bytes(port),
        MessageModel::GetMeshInfo {} => Seq::<u8>::empty(),
        MessageModel::MeshInfo { signal, tx, rx, mcu_temperature } => spec_u32_to_le_bytes(signal) + spec_u32_to_le_bytes(tx) + spec_u32_to_le_bytes(rx) + spec_u16_to_le_bytes(mcu_temperature),
        MessageModel::HostFirmware { build, reserved_6, version_minor, version_major } => spec_u64_to_le_bytes(build) + reserved_6 + spec_u16_to_le_bytes(version_minor) + spec_u16_to_le_bytes(version_major),
        MessageModel::WifiInfo { signal, tx, rx, mcu_temperature } => spec_u32_to_le_bytes(signal) + spec_u32_to_le_bytes(tx) + spec_u32_to_le_bytes(rx) + spec_u16_to_le_bytes(mcu_temperature),
        MessageModel::WifiFirmware { build, reserved_6, version_minor, version_major } => spec_u64_to_le_bytes(build) + reserved_6 + spec_u16_to_le_bytes(version_minor) + spec_u16_to_le_bytes(version_major),
        MessageModel::Power { level } => spec_u16_to_le_bytes(level),
        MessageModel::Label { label } => spec_text_bytes(label, 32),
        MessageModel::Version { vendor, product, reserved_6 } => spec_u32_to_le_bytes(vendor) + spec_u32_to_le_bytes(product) + spec_u32_to_le_bytes(reserved_6),
        MessageModel::Info { time, uptime, downtime } => spec_u64_to_le_bytes(time) + spec_u64_to_le_bytes(uptime) + spec_u64_to_le_bytes(downtime),
        MessageModel::Location { location, label, updated_at } => location + spec_text_bytes(label, 32) + spec_u64_to_le_bytes(updated_at),
        MessageModel::Group { group, label, updated_at } => group + spec_text_bytes(label, 32) + spec_u64_to_le_bytes(updated_at),
        MessageModel::EchoResponse { echoing } => echoing,
        MessageModel::Unhandled { unhandled_type } => spec_u16_to_le_bytes(unhandled_type),
        MessageModel::LightState { hue, saturation, brightness, kelvin, reserved_6, power, label, reserved_7 } => spec_u16_to_le_bytes(hue) + spec_u16_to_le_bytes(saturation) + spec_u16_to_le_bytes(brightness) + spec_u16_to_le_bytes(kelvin) + reserved_6 + spec_u16_to_le_bytes(power) + spec_text_bytes(label, 32) + reserved_7,
        MessageModel::LightPower { level } => spec_u16_to_le_bytes(level),
        MessageModel::Infrared { brightness } => spec_u16_to_le_bytes(brightness),
        MessageModel::HevCycle { duration_s, remaining_s, last_power } => spec_u32_to_le_bytes(duration_s) + spec_u32_to_le_bytes(remaining_s) + seq![last_power],
        MessageModel::HevCycleConfig { indication, duration_s } => seq![indication] + spec_u32_to_le_bytes(duration_s),
        MessageModel::LastHevCycleResult { result } => seq![result],
        MessageModel::GetService => Seq::<u8>::empty(),
        MessageModel::GetHostFirmware => Seq::<u8>::empty(),
        MessageModel::GetWifiInfo => Seq::<u8>::empty(),
        MessageModel::GetWifiFirmware => Seq::<u8>::empty(),
        MessageModel::GetPower => Seq::<u8>::empty(),
        MessageModel::SetPower { level } => spec_u16_to_le_bytes(level),
        MessageModel::GetLabel => Seq::<u8>::empty(),
        MessageModel::SetLabel { label } => spec_text_bytes(label, 32),
        MessageModel::GetVersion => Seq::<u8>::empty(),
        MessageModel::GetInfo => Seq::<u8>::empty(),
        MessageModel::SetReboot => Seq::<u8>::empty(),
        MessageModel::GetLocation => Seq::<u8>::empty(),
        MessageModel::SetLocation { location, label, updated_at } => location + spec_text_bytes(label, 32) + spec_u64_to_le_bytes(updated_at),
        MessageModel::GetGroup => Seq::<u8>::empty(),
        MessageModel::SetGroup { group, label, updated_at } => group + spec_text_bytes(label, 32) + spec_u64_to_le_bytes(updated_at),
        MessageModel::EchoRequest { echoing } => echoing,
        MessageModel::GetColor => Seq::<u8>::empty(),
        MessageModel::SetColor { reserved_6, hue, saturation, brightness, kelvin, duration_ms } => seq![reserved_6] + spec_u16_to_le_bytes(hue) + spec_u16_to_le_bytes(saturation) + spec_u16_to_le_bytes(brightness) + spec_u16_to_le_bytes(kelvin) + spec_u32_to_le_bytes(duration_ms),
        MessageModel::SetWaveform { reserved_6, transient, hue, saturation, brightness, kelvin, period_ms, cycles, skew_ratio, waveform } => seq![reserved_6] + seq![transient] + spec_u16_to_le_bytes(hue) + spec_u16_to_le_bytes(saturation) + spec_u16_to_le_bytes(brightness) + spec_u16_to_le_bytes(kelvin) + spec_u32_to_le_bytes(period_ms) + spec_u32_to_le_bytes(cycles) + spec_i16_to_le_bytes(skew_ratio) + seq![waveform],
        MessageModel::GetLightPower => Seq::<u8>::empty(),
        MessageModel::SetLightPower { level, duration_ms } => spec_u16_to_le_bytes(level) + spec_u32_to_le_bytes(duration_ms),
        MessageModel::SetWaveformOptional { reserved_6, transient, hue, saturation, brightness, kelvin, period_ms, cycles, skew_ratio, waveform, set_hue, set_saturation, set_brightness, set_kelvin } => seq![reserved_6] + seq![transient] + spec_u16_to_le_bytes(hue) + spec_u16_to_le_bytes(saturation) + spec_u16_to_le_bytes(brightness) + spec_u16_to_le_bytes(kelvin) + spec_u32_to_le_bytes(period_ms) + spec_u32_to_le_bytes(cycles) + spec_i16_to_le_bytes(skew_ratio) + seq![waveform] + seq![set_hue] + seq![set_saturation] + seq![set_brightness] + seq![set_kelvin],
        MessageModel::GetInfrared => Seq::<u8>::empty(),
        MessageModel::SetInfrared { brightness } => spec_u16_to_le_bytes(brightness),
        MessageModel::GetHevCycle => Seq::<u8>::empty(),
        MessageModel::SetHevCycle { duration_s } => spec_u32_to_le_bytes(duration_s),
        MessageModel::GetHevCycleConfiguration => Seq::<u8>::empty(),
        MessageModel::SetHevCycleConfiguration { indication, duration_s } => seq![indication] + spec_u32_to_le_bytes(duration_s),
        MessageModel::GetLastHevCycleResult => Seq::<u8>::empty(),
        MessageModel::SetAccessPoint { interface, ssid, password, protocol } => seq![interface] + spec_text_bytes(ssid, 32) + spec_text_bytes(password, 64) + seq![protocol],
    }
}

/// What decoding a payload yields, as a function of the packet number and
/// the received bytes: the packet number is looked up first, the buffer
/// length is checked second, and text fields may still fail UTF-8 decoding.
pub open spec fn spec_decode_payload(pt: u16, b: Seq<u8>) -> Result<
    MessageModel,
    LifxDeserializationError,
> {
    if !spec_known_packet_number(pt) {
        Err(LifxDeserializationError::InvalidPacketNumber(pt))
    } else if b.len() < spec_packet_payload_size(pt) {
        Err(LifxDeserializationError::InvalidPacketSize)
    } else {
        match pt {
            1u16 => Ok(MessageModel::Service { service: b[0], port: spec_u32_from_le_bytes(b.subrange(1, 5)) }),
            3u16 => Ok(MessageModel::StateService { service: b[0], port: spec_u32_from_le_bytes(b.subrange(1, 5)) }),
            12u16 => Ok(MessageModel::GetMeshInfo {}),
            13u16 => Ok(MessageModel::MeshInfo { signal: spec_u32_from_le_bytes(b.subrange(0, 4)), tx: spec_u32_from_le_bytes(b.subrange(4, 8)), rx: spec_u32_from_le_bytes(b.subrange(8, 12)), mcu_temperature: spec_u16_from_le_bytes(b.subrange(12, 14)) }),
            15u16 => Ok(MessageModel::HostFirmware { build: spec_u64_from_le_bytes(b.subrange(0, 8)), reserved_6: b.subrange(8, 16), version_minor: spec_u16_from_le_bytes(b.subrange(16, 18)), version_major: spec_u16_from_le_bytes(b.subrange(18, 20)) }),
            17u16 => Ok(MessageModel::WifiInfo { signal: spec_u32_from_le_bytes(b.subrange(0, 4)), tx: spec_u32_from_le_bytes(b.subrange(4, 8)), rx: spec_u32_from_le_bytes(b.subrange(8, 12)), mcu_temperature: spec_u16_from_le_bytes(b.subrange(12, 14)) }),
            19u16 => Ok(MessageModel::WifiFirmware { build: spec_u64_from_le_bytes(b.subrange(0, 8)), reserved_6: b.subrange(8, 16), version_minor: spec_u16_from_le_bytes(b.subrange(16, 18)), version_major: spec_u16_from_le_bytes(b.subrange(18, 20)) }),
            22u16 => Ok(MessageModel::Power { level: spec_u16_from_le_bytes(b.subrange(0, 2)) }),
            25u16 => match spec_read_text(b.subrange(0, 32)) {
                Ok(label_v) => Ok(MessageModel::Label { label: label_v }),
                Err(e) => Err(e),
            },
            33u16 => Ok(MessageModel::Version { vendor: spec_u32_from_le_bytes(b.subrange(0, 4)), product: spec_u32_from_le_bytes(b.subrange(4, 8)), reserved_6: spec_u32_from_le_bytes(b.subrange(8, 12)) }),
            35u16 => Ok(MessageModel::Info { time: spec_u64_from_le_bytes(b.subrange(0, 8)), uptime: spec_u64_from_le_bytes(b.subrange(8, 16)), downtime: spec_u64_from_le_bytes(b.subrange(16, 24)) }),
            50u16 => match spec_read_text(b.subrange(16, 48)) {
                Ok(label_v) => Ok(MessageModel::Location { location: b.subrange(0, 16), label: label_v, updated_at: spec_u64_from_le_bytes(b.subrange(48, 56)) }),
                Err(e) => Err(e),
            },
            53u16 => match spec_read_text(b.subrange(16, 48)) {
                Ok(label_v) => Ok(MessageModel::Group { group: b.subrange(0, 16), label: label_v, updated_at: spec_u64_from_le_bytes(b.subrange(48, 56)) }),
                Err(e) => Err(e),
            },
            59u16 => Ok(MessageModel::EchoResponse { echoing: b.subrange(0, 64) }),
            223u16 => Ok(MessageModel::Unhandled { unhandled_type: spec_u16_from_le_bytes(b.subrange(0, 2)) }),
            107u16 => match spec_read_text(b.subrange(12, 44)) {
                Ok(label_v) => Ok(MessageModel::LightState { hue: spec_u16_from_le_bytes(b.subrange(0, 2)), saturation: spec_u16_from_le_bytes(b.subrange(2, 4)), brightness: spec_u16_from_le_bytes(b.subrange(4, 6)), kelvin: spec_u16_from_le_bytes(b.subrange(6, 8)), reserved_6: b.subrange(8, 10), power: spec_u16_from_le_bytes(b.subrange(10, 12)), label: label_v, reserved_7: b.subrange(44, 52) }),
                Err(e) => Err(e),
            },
            118u16 => Ok(MessageModel::LightPower { level: spec_u16_from_le_bytes(b.subrange(0, 2)) }),
            121u16 => Ok(MessageModel::Infrared { brightness: spec_u16_from_le_bytes(b.subrange(0, 2)) }),
            144u16 => Ok(MessageModel::HevCycle { duration_s: spec_u32_from_le_bytes(b.subrange(0, 4)), remaining_s: spec_u32_from_le_bytes(b.subrange(4, 8)), last_power: b[8] }),
            147u16 => Ok(MessageModel::HevCycleConfig { indication: b[0], duration_s: spec_u32_from_le_bytes(b.subrange(1, 5)) }),
            149u16 => Ok(MessageModel::LastHevCycleResult { result: b[0] }),
            2u16 => Ok(MessageModel::GetService),
            14u16 => Ok(MessageModel::GetHostFirmware),
            16u16 => Ok(MessageModel::GetWifiInfo),
            18u16 => Ok(MessageModel::GetWifiFirmware),
            20u16 => Ok(MessageModel::GetPower),
            21u16 => Ok(MessageModel::SetPower { level: spec_u16_from_le_bytes(b.subrange(0, 2)) }),
            23u16 => Ok(MessageModel::GetLabel),
            24u16 => match spec_read_text(b.subrange(0, 32)) {
                Ok(label_v) => Ok(MessageModel::SetLabel { label: label_v }),
                Err(e) => Err(e),
            },
            32u16 => Ok(MessageModel::GetVersion),
            34u16 => Ok(MessageModel::GetInfo),
            38u16 => Ok(MessageModel::SetReboot),
            48u16 => Ok(MessageModel::GetLocation),
            49u16 => match spec_read_text(b.subrange(16, 48)) {
                Ok(label_v) => Ok(MessageModel::SetLocation { location: b.subrange(0, 16), label: label_v, updated_at: spec_u64_from_le_bytes(b.subrange(48, 56)) }),
                Err(e) => Err(e),
            },
            51u16 => Ok(MessageModel::GetGroup),
            52u16 => match spec_read_text(b.subrange(16, 48)) {
                Ok(label_v) => Ok(MessageModel::SetGroup { group: b.subrange(0, 16), label: label_v, updated_at: spec_u64_from_le_bytes(b.subrange(48, 56)) }),
                Err(e) => Err(e),
            },
            58u16 => Ok(MessageModel::EchoRequest { echoing: b.subrange(0, 64) }),
            101u16 => Ok(MessageModel::GetColor),
            102u16 => Ok(MessageModel::SetColor { reserved_6: b[0], hue: spec_u16_from_le_bytes(b.subrange(1, 3)), saturation: spec_u16_from_le_bytes(b.subrange(3, 5)), brightness: spec_u16_from_le_bytes(b.subrange(5, 7)), kelvin: spec_u16_from_le_bytes(b.subrange(7, 9)), duration_ms: spec_u32_from_le_bytes(b.subrange(9, 13)) }),
            103u16 => Ok(MessageModel::SetWaveform { reserved_6: b[0], transient: b[1], hue: spec_u16_from_le_bytes(b.subrange(2, 4)), saturation: spec_u16_from_le_bytes(b.subrange(4, 6)), brightness: spec_u16_from_le_bytes(b.subrange(6, 8)), kelvin: spec_u16_from_le_bytes(b.subrange(8, 10)), period_ms: spec_u32_from_le_bytes(b.subrange(10, 14)), cycles: spec_u32_from_le_bytes(b.subrange(14, 18)), skew_ratio: spec_i16_from_le_bytes(b.subrange(18, 20)), waveform: b[20] }),
            116u16 => Ok(MessageModel::GetLightPower),
            117u16 => Ok(MessageModel::SetLightPower { level: spec_u16_from_le_bytes(b.subrange(0, 2)), duration_ms: spec_u32_from_le_bytes(b.subrange(2, 6)) }),
            119u16 => Ok(MessageModel::SetWaveformOptional { reserved_6: b[0], transient: b[1], hue: spec_u16_from_le_bytes(b.subrange(2, 4)), saturation: spec_u16_from_le_bytes(b.subrange(4, 6)), brightness: spec_u16_from_le_bytes(b.subrange(6, 8)), kelvin: spec_u16_from_le_bytes(b.subrange(8, 10)), period_ms: spec_u32_from_le_bytes(b.subrange(10, 14)), cycles: spec_u32_from_le_bytes(b.subrange(14, 18)), skew_ratio: spec_i16_from_le_bytes(b.subrange(18, 20)), waveform: b[20], set_hue: b[21], set_saturation: b[22], set_brightness: b[23], set_kelvin: b[24] }),
            120u16 => Ok(MessageModel::GetInfrared),
            122u16 => Ok(MessageModel::SetInfrared { brightness: spec_u16_from_le_bytes(b.subrange(0, 2)) }),
            142u16 => Ok(MessageModel::GetHevCycle),
            143u16 => Ok(MessageModel::SetHevCycle { duration_s: spec_u32_from_le_bytes(b.subrange(0, 4)) }),
            145u16 => Ok(MessageModel::GetHevCycleConfiguration),
            146u16 => Ok(MessageModel::SetHevCycleConfiguration { indication: b[0], duration_s: spec_u32_from_le_bytes(b.subrange(1, 5)) }),
            148u16 => Ok(MessageModel::GetLastHevCycleResult),
            305u16 => match spec_read_text(b.subrange(1, 33)) {
                Ok(ssid_v) => match spec_read_text(b.subrange(33, 97)) {
                    Ok(password_v) => Ok(MessageModel::SetAccessPoint { interface: b[0], ssid: ssid_v, password: password_v, protocol: b[97] }),
                    Err(e) => Err(e),
                },
                Err(e) => Err(e),
            },
            _ => Err(LifxDeserializationError::InvalidPacketNumber(pt)),
        }
    }
}

fn encode_service(buffer: &mut Vec<u8>, offset: usize, service: u8, port: u32)
    requires
        offset + 5 <= old(buffer).len(),
    ensures
        final(buffer)@ == spec_splice(
            old(buffer)@,
            offset as int,
            seq![service] + spec_u32_to_le_bytes(port),
        ),
{
    proof {
        lemma_auto_spec_u16_to_from_le_bytes();
        lemma_auto_spec_u32_to_from_le_bytes();
        lemma_auto_spec_u64_to_from_le_bytes();
    }
    write_u8(buffer, offset, service);
    write_u32(buffer, offset + 1, port);
    proof {
        let b0 = old(buffer)@;
        let s1 = seq![service];
        let s2 = spec_u32_to_le_bytes(port);
        lemma_splice_adjacent(b0, offset as int, s1, s2);
        assert(buffer@ == spec_splice(b0, offset as int, s1 + s2));
    }
}

fn encode_state_service(buffer: &mut Vec<u8>, offset: usize, service: u8, port: u32)
    requires
        offset + 5 <= old(buffer).len(),
    ensures
        final(buffer)@ == spec_splice(
            old(buffer)@,
            offset as int,
            seq![service] + spec_u32_to_le_bytes(port),
        ),
{
    proof {
        lemma_auto_spec_u16_to_from_le_bytes();
        lemma_auto_spec_u32_to_from_le_bytes();
        lemma_auto_spec_u64_to_from_le_bytes();
    }
    write_u8(buffer, offset, service);
    write_u32(buffer, offset + 1, port);
    proof {
        let b0 = old(buffer)@;
        let s1 = seq![service];
        let s2 = spec_u32_to_le_bytes(port);
        lemma_splice_adjacent(b0, offset as int, s1, s2);
        assert(buffer@ == spec_splice(b0, offset as int, s1 + s2));
    }
}

fn encode_mesh_info(buffer: &mut Vec<u8>, offset: usize, signal: u32, tx: u32, rx: u32, mcu_temperature: u16)
    requires
        offset + 14 <= old(buffer).len(),
    ensures
        final(buffer)@ == spec_splice(
            old(buffer)@,
            offset as int,
            spec_u32_to_le_bytes(signal) + spec_u32_to_le_bytes(tx) + spec_u32_to_le_bytes(rx) + spec_u16_to_le_bytes(mcu_temperature),
        ),
{
    proof {
        lemma_auto_spec_u16_to_from_le_bytes();
        lemma_auto_spec_u32_to_from_le_bytes();
        lemma_auto_spec_u64_to_from_le_bytes();
    }
    write_u32(buffer, offset, signal);
    write_u32(buffer, offset + 4, tx);
    write_u32(buffer, offset + 8, rx);
    write_u16(buffer, offset + 12, mcu_temperature);
    proof {
        let b0 = old(buffer)@;
        let s1 = spec_u32_to_le_bytes(signal);
        let s2 = spec_u32_to_le_bytes(tx);
        let s3 = spec_u32_to_le_bytes(rx);
        let s4 = spec_u16_to_le_bytes(mcu_temperature);
        lemma_splice_adjacent(b0, offset as int, s1, s2);
        lemma_splice_adjacent(b0, offset as int, s1 + s2, s3);
        lemma_splice_adjacent(b0, offset as int, s1 + s2 + s3, s4);
        assert(buffer@ == spec_splice(b0, offset as int, s1 + s2 + s3 + s4));
    }
}

fn encode_host_firmware(buffer: &mut Vec<u8>, offset: usize, build: u64, reserved_6: &[u8; 8], version_minor: u16, version_major: u16)
    requires
        offset + 20 <= old(buffer).len(),
    ensures
        final(buffer)@ == spec_splice(
            old(buffer)@,
            offset as int,
            spec_u64_to_le_bytes(build) + reserved_6@ + spec_u16_to_le_bytes(version_minor) + spec_u16_to_le_bytes(version_major),
        ),
{
    proof {
        lemma_auto_spec_u16_to_from_le_bytes();
        lemma_auto_spec_u32_to_from_le_bytes();
        lemma_auto_spec_u64_to_from_le_bytes();
    }
    write_u64(buffer, offset, build);
    write_bytes(buffer, offset + 8, reserved_6.as_slice());
    write_u16(buffer, offset + 16, version_minor);
    write_u16(buffer, offset + 18, version_major);
    proof {
        let b0 = old(buffer)@;
        let s1 = spec_u64_to_le_bytes(build);
        let s2 = reserved_6@;
        let s3 = spec_u16_to_le_bytes(version_minor);
        let s4 = spec_u16_to_le_bytes(version_major);
        lemma_splice_adjacent(b0, offset as int, s1, s2);
        lemma_splice_adjacent(b0, offset as int, s1 + s2, s3);
        lemma_splice_adjacent(b0, offset as int, s1 + s2 + s3, s4);
        assert(buffer@ == spec_splice(b0, offset as int, s1 + s2 + s3 + s4));
    }
}

fn encode_wifi_info(buffer: &mut Vec<u8>, offset: usize, signal: u32, tx: u32, rx: u32, mcu_temperature: u16)
    requires
        offset + 14 <= old(buffer).len(),
    ensures
        final(buffer)@ == spec_splice(
            old(buffer)@,
            offset as int,
            spec_u32_to_le_bytes(signal) + spec_u32_to_le_bytes(tx) + spec_u32_to_le_bytes(rx) + spec_u16_to_le_bytes(mcu_temperature),
        ),
{
    proof {
        lemma_auto_spec_u16_to_from_le_bytes();
        lemma_auto_spec_u32_to_from_le_bytes();
        lemma_auto_spec_u64_to_from_le_bytes();
    }
    write_u32(buffer, offset, signal);
    write_u32(buffer, offset + 4, tx);
    write_u32(buffer, offset + 8, rx);
    write_u16(buffer, offset + 12, mcu_temperature);
    proof {
        let b0 = old(buffer)@;
        let s1 = spec_u32_to_le_bytes(signal);
        let s2 = spec_u32_to_le_bytes(tx);
        let s3 = spec_u32_to_le_bytes(rx);
        let s4 = spec_u16_to_le_bytes(mcu_temperature);
        lemma_splice_adjacent(b0, offset as int, s1, s2);
        lemma_splice_adjacent(b0, offset as int, s1 + s2, s3);
        lemma_splice_adjacent(b0, offset as int, s1 + s2 + s3, s4);
        assert(buffer@ == spec_splice(b0, offset as int, s1 + s2 + s3 + s4));
    }
}

fn encode_wifi_firmware(buffer: &mut Vec<u8>, offset: usize, build: u64, reserved_6: &[u8; 8], version_minor: u16, version_major: u16)
    requires
        offset + 20 <= old(buffer).len(),
    ensures
        final(buffer)@ == spec_splice(
            old(buffer)@,
            offset as int,
            spec_u64_to_le_bytes(build) + reserved_6@ + spec_u16_to_le_bytes(version_minor) + spec_u16_to_le_bytes(version_major),
        ),
{
    proof {
        lemma_auto_spec_u16_to_from_le_bytes();
        lemma_auto_spec_u32_to_from_le_bytes();
        lemma_auto_spec_u64_to_from_le_bytes();
    }
    write_u64(buffer, offset, build);
    write_bytes(buffer, offset + 8, reserved_6.as_slice());
    write_u16(buffer, offset + 16, version_minor);
    write_u16(buffer, offset + 18, version_major);
    proof {
        let b0 = old(buffer)@;
        let s1 = spec_u64_to_le_bytes(build);
        let s2 = reserved_6@;
        let s3 = spec_u16_to_le_bytes(version_minor);
        let s4 = spec_u16_to_le_bytes(version_major);
        lemma_splice_adjacent(b0, offset as int, s1, s2);
        lemma_splice_adjacent(b0, offset as int, s1 + s2, s3);
        lemma_splice_adjacent(b0, offset as int, s1 + s2 + s3, s4);
        assert(buffer@ == spec_splice(b0, offset as int, s1 + s2 + s3 + s4));
    }
}

fn encode_power(buffer: &mut Vec<u8>, offset: usize, level: u16)
    requires
        offset + 2 <= old(buffer).len(),
    ensures
        final(buffer)@ == spec_splice(
            old(buffer)@,
            offset as int,
            spec_u16_to_le_bytes(level),
        ),
{
    proof {
        lemma_auto_spec_u16_to_from_le_bytes();
        lemma_auto_spec_u32_to_from_le_bytes();
        lemma_auto_spec_u64_to_from_le_bytes();
    }
    write_u16(buffer, offset, level);
    proof {
        let b0 = old(buffer)@;
        let s1 = spec_u16_to_le_bytes(level);
        assert(buffer@ == spec_splice(b0, offset as int, s1));
    }
}

fn encode_label(buffer: &mut Vec<u8>, offset: usize, label: &String)
    requires
        offset + 32 <= old(buffer).len(),
        spec_text_fits(label@, 32),
    ensures
        final(buffer)@ == spec_splice(
            old(buffer)@,
            offset as int,
            spec_text_bytes(label@, 32),
        ),
{
    proof {
        lemma_auto_spec_u16_to_from_le_bytes();
        lemma_auto_spec_u32_to_from_le_bytes();
        lemma_auto_spec_u64_to_from_le_bytes();
    }
    match write_text(buffer, offset, label, 32) {
        Ok(_) => {},
        Err(_) => {},
    }
    proof {
        let b0 = old(buffer)@;
        let s1 = spec_text_bytes(label@, 32);
        assert(buffer@ == spec_splice(b0, offset as int, s1));
    }
}

fn encode_version(buffer: &mut Vec<u8>, offset: usize, vendor: u32, product: u32, reserved_6: u32)
    requires
        offset + 12 <= old(buffer).len(),
    ensures
        final(buffer)@ == spec_splice(
            old(buffer)@,
            offset as int,
            spec_u32_to_le_bytes(vendor) + spec_u32_to_le_bytes(product) + spec_u32_to_le_bytes(reserved_6),
        ),
{
    proof {
        lemma_auto_spec_u16_to_from_le_bytes();
        lemma_auto_spec_u32_to_from_le_bytes();
        lemma_auto_spec_u64_to_from_le_bytes();
    }
    write_u32(buffer, offset, vendor);
    write_u32(buffer, offset + 4, product);
    write_u32(buffer, offset + 8, reserved_6);
    proof {
        let b0 = old(buffer)@;
        let s1 = spec_u32_to_le_bytes(vendor);
        let s2 = spec_u32_to_le_bytes(product);
        let s3 = spec_u32_to_le_bytes(reserved_6);
        lemma_splice_adjacent(b0, offset as int, s1, s2);
        lemma_splice_adjacent(b0, offset as int, s1 + s2, s3);
        assert(buffer@ == spec_splice(b0, offset as int, s1 + s2 + s3));
    }
}

fn encode_info(buffer: &mut Vec<u8>, offset: usize, time: u64, uptime: u64, downtime: u64)
    requires
        offset + 24 <= old(buffer).len(),
    ensures
        final(buffer)@ == spec_splice(
            old(buffer)@,
            offset as int,
            spec_u64_to_le_bytes(time) + spec_u64_to_le_bytes(uptime) + spec_u64_to_le_bytes(downtime),
        ),
{
    proof {
        lemma_auto_spec_u16_to_from_le_bytes();
        lemma_auto_spec_u32_to_from_le_bytes();
        lemma_auto_spec_u64_to_from_le_bytes();
    }
    write_u64(buffer, offset, time);
    write_u64(buffer, offset + 8, uptime);
    write_u64(buffer, offset + 16, downtime);
    proof {
        let b0 = old(buffer)@;
        let s1 = spec_u64_to_le_bytes(time);
        let s2 = spec_u64_to_le_bytes(uptime);
        let s3 = spec_u64_to_le_bytes(downtime);
        lemma_splice_adjacent(b0, offset as int, s1, s2);
        lemma_splice_adjacent(b0, offset as int, s1 + s2, s3);
        assert(buffer@ == spec_splice(b0, offset as int, s1 + s2 + s3));
    }
}

fn encode_location(buffer: &mut Vec<u8>, offset: usize, location: &[u8; 16], label: &String, updated_at: u64)
    requires
        offset + 56 <= old(buffer).len(),
        spec_text_fits(label@, 32),
    ensures
        final(buffer)@ == spec_splice(
            old(buffer)@,
            offset as int,
            location@ + spec_text_bytes(label@, 32) + spec_u64_to_le_bytes(updated_at),
        ),
{
    proof {
        lemma_auto_spec_u16_to_from_le_bytes();
        lemma_auto_spec_u32_to_from_le_bytes();
        lemma_auto_spec_u64_to_from_le_bytes();
    }
    write_bytes(buffer, offset, location.as_slice());
    match write_text(buffer, offset + 16, label, 32) {
        Ok(_) => {},
        Err(_) => {},
    }
    write_u64(buffer, offset + 48, updated_at);
    proof {
        let b0 = old(buffer)@;
        let s1 = location@;
        let s2 = spec_text_bytes(label@, 32);
        let s3 = spec_u64_to_le_bytes(updated_at);
        lemma_splice_adjacent(b0, offset as int, s1, s2);
        lemma_splice_adjacent(b0, offset as int, s1 + s2, s3);
        assert(buffer@ == spec_splice(b0, offset as int, s1 + s2 + s3));
    }
}

fn encode_group(buffer: &mut Vec<u8>, offset: usize, group: &[u8; 16], label: &String, updated_at: u64)
    requires
        offset + 56 <= old(buffer).len(),
        spec_text_fits(label@, 32),
    ensures
        final(buffer)@ == spec_splice(
            old(buffer)@,
            offset as int,
            group@ + spec_text_bytes(label@, 32) + spec_u64_to_le_bytes(updated_at),
        ),
{
    proof {
        lemma_auto_spec_u16_to_from_le_bytes();
        lemma_auto_spec_u32_to_from_le_bytes();
        lemma_auto_spec_u64_to_from_le_bytes();
    }
    write_bytes(buffer, offset, group.as_slice());
    match write_text(buffer, offset + 16, label, 32) {
        Ok(_) => {},
        Err(_) => {},
    }
    write_u64(buffer, offset + 48, updated_at);
    proof {
        let b0 = old(buffer)@;
        let s1 = group@;
        let s2 = spec_text_bytes(label@, 32);
        let s3 = spec_u64_to_le_bytes(updated_at);
        lemma_splice_adjacent(b0, offset as int, s1, s2);
        lemma_splice_adjacent(b0, offset as int, s1 + s2, s3);
        assert(buffer@ == spec_splice(b0, offset as int, s1 + s2 + s3));
    }
}

fn encode_echo_response(buffer: &mut Vec<u8>, offset: usize, echoing: &[u8; 64])
    requires
        offset + 64 <= old(buffer).len(),
    ensures
        final(buffer)@ == spec_splice(
            old(buffer)@,
            offset as int,
            echoing@,
        ),
{
    proof {
        lemma_auto_spec_u16_to_from_le_bytes();
        lemma_auto_spec_u32_to_from_le_bytes();
        lemma_auto_spec_u64_to_from_le_bytes();
    }
    write_bytes(buffer, offset, echoing.as_slice());
    proof {
        let b0 = old(buffer)@;
        let s1 = echoing@;
        assert(buffer@ == spec_splice(b0, offset as int, s1));
    }
}

fn encode_unhandled(buffer: &mut Vec<u8>, offset: usize, unhandled_type: u16)
    requires
        offset + 2 <= old(buffer).len(),
    ensures
        final(buffer)@ == spec_splice(
            old(buffer)@,
            offset as int,
            spec_u16_to_le_bytes(unhandled_type),
        ),
{
    proof {
        lemma_auto_spec_u16_to_from_le_bytes();
        lemma_auto_spec_u32_to_from_le_bytes();
        lemma_auto_spec_u64_to_from_le_bytes();
    }
    write_u16(buffer, offset, unhandled_type);
    proof {
        let b0 = old(buffer)@;
        let s1 = spec_u16_to_le_bytes(unhandled_type);
        assert(buffer@ == spec_splice(b0, offset as int, s1));
    }
}

fn encode_light_state(buffer: &mut Vec<u8>, offset: usize, hue: u16, saturation: u16, brightness: u16, kelvin: u16, reserved_6: &[u8; 2], power: u16, label: &String, reserved_7: &[u8; 8])
    requires
        offset + 52 <= old(buffer).len(),
        spec_text_fits(label@, 32),
    ensures
        final(buffer)@ == spec_splice(
            old(buffer)@,
            offset as int,
            spec_u16_to_le_bytes(hue) + spec_u16_to_le_bytes(saturation) + spec_u16_to_le_bytes(brightness) + spec_u16_to_le_bytes(kelvin) + reserved_6@ + spec_u16_to_le_bytes(power) + spec_text_bytes(label@, 32) + reserved_7@,
        ),
{
    proof {
        lemma_auto_spec_u16_to_from_le_bytes();
        lemma_auto_spec_u32_to_from_le_bytes();
        lemma_auto_spec_u64_to_from_le_bytes();
    }
    write_u16(buffer, offset, hue);
    write_u16(buffer, offset + 2, saturation);
    write_u16(buffer, offset + 4, brightness);
    write_u16(buffer, offset + 6, kelvin);
    write_bytes(buffer, offset + 8, reserved_6.as_slice());
    write_u16(buffer, offset + 10, power);
    match write_text(buffer, offset + 12, label, 32) {
        Ok(_) => {},
        Err(_) => {},
    }
    write_bytes(buffer, offset + 44, reserved_7.as_slice());
    proof {
        let b0 = old(buffer)@;
        let s1 = spec_u16_to_le_bytes(hue);
        let s2 = spec_u16_to_le_bytes(saturation);
        let s3 = spec_u16_to_le_bytes(brightness);
        let s4 = spec_u16_to_le_bytes(kelvin);
        let s5 = reserved_6@;
        let s6 = spec_u16_to_le_bytes(power);
        let s7 = spec_text_bytes(label@, 32);
        let s8 = reserved_7@;
        lemma_splice_adjacent(b0, offset as int, s1, s2);
        lemma_splice_adjacent(b0, offset as int, s1 + s2, s3);
        lemma_splice_adjacent(b0, offset as int, s1 + s2 + s3, s4);
        lemma_splice_adjacent(b0, offset as int, s1 + s2 + s3 + s4, s5);
        lemma_splice_adjacent(b0, offset as int, s1 + s2 + s3 + s4 + s5, s6);
        lemma_splice_adjacent(b0, offset as int, s1 + s2 + s3 + s4 + s5 + s6, s7);
        lemma_splice_adjacent(b0, offset as int, s1 + s2 + s3 + s4 + s5 + s6 + s7, s8);
        assert(buffer@ == spec_splice(b0, offset as int, s1 + s2 + s3 + s4 + s5 + s6 + s7 + s8));
    }
}

fn encode_light_power(buffer: &mut Vec<u8>, offset: usize, level: u16)
    requires
        offset + 2 <= old(buffer).len(),
    ensures
        final(buffer)@ == spec_splice(
            old(buffer)@,
            offset as int,
            spec_u16_to_le_bytes(level),
        ),
{
    proof {
        lemma_auto_spec_u16_to_from_le_bytes();
        lemma_auto_spec_u32_to_from_le_bytes();
        lemma_auto_spec_u64_to_from_le_bytes();
    }
    write_u16(buffer, offset, level);
    proof {
        let b0 = old(buffer)@;
        let s1 = spec_u16_to_le_bytes(level);
        assert(buffer@ == spec_splice(b0, offset as int, s1));
    }
}

fn encode_infrared(buffer: &mut Vec<u8>, offset: usize, brightness: u16)
    requires
        offset + 2 <= old(buffer).len(),
    ensures
        final(buffer)@ == spec_splice(
            old(buffer)@,
            offset as int,
            spec_u16_to_le_bytes(brightness),
        ),
{
    proof {
        lemma_auto_spec_u16_to_from_le_bytes();
        lemma_auto_spec_u32_to_from_le_bytes();
        lemma_auto_spec_u64_to_from_le_bytes();
    }
    write_u16(buffer, offset, brightness);
    proof {
        let b0 = old(buffer)@;
        let s1 = spec_u16_to_le_bytes(brightness);
        assert(buffer@ == spec_splice(b0, offset as int, s1));
    }
}

fn encode_hev_cycle(buffer: &mut Vec<u8>, offset: usize, duration_s: u32, remaining_s: u32, last_power: u8)
    requires
        offset + 9 <= old(buffer).len(),
    ensures
        final(buffer)@ == spec_splice(
            old(buffer)@,
            offset as int,
            spec_u32_to_le_bytes(duration_s) + spec_u32_to_le_bytes(remaining_s) + seq![last_power],
        ),
{
    proof {
        lemma_auto_spec_u16_to_from_le_bytes();
        lemma_auto_spec_u32_to_from_le_bytes();
        lemma_auto_spec_u64_to_from_le_bytes();
    }
    write_u32(buffer, offset, duration_s);
    write_u32(buffer, offset + 4, remaining_s);
    write_u8(buffer, offset + 8, last_power);
    proof {
        let b0 = old(buffer)@;
        let s1 = spec_u32_to_le_bytes(duration_s);
        let s2 = spec_u32_to_le_bytes(remaining_s);
        let s3 = seq![last_power];
        lemma_splice_adjacent(b0, offset as int, s1, s2);
        lemma_splice_adjacent(b0, offset as int, s1 + s2, s3);
        assert(buffer@ == spec_splice(b0, offset as int, s1 + s2 + s3));
    }
}

fn encode_hev_cycle_config(buffer: &mut Vec<u8>, offset: usize, indication: u8, duration_s: u32)
    requires
        offset + 5 <= old(buffer).len(),
    ensures
        final(buffer)@ == spec_splice(
            old(buffer)@,
            offset as int,
            seq![indication] + spec_u32_to_le_bytes(duration_s),
        ),
{
    proof {
        lemma_auto_spec_u16_to_from_le_bytes();
        lemma_auto_spec_u32_to_from_le_bytes();
        lemma_auto_spec_u64_to_from_le_bytes();
    }
    write_u8(buffer, offset, indication);
    write_u32(buffer, offset + 1, duration_s);
    proof {
        let b0 = old(buffer)@;
        let s1 = seq![indication];
        let s2 = spec_u32_to_le_bytes(duration_s);
        lemma_splice_adjacent(b0, offset as int, s1, s2);
        assert(buffer@ == spec_splice(b0, offset as int, s1 + s2));
    }
}

fn encode_last_hev_cycle_result(buffer: &mut Vec<u8>, offset: usize, result: u8)
    requires
        offset + 1 <= old(buffer).len(),
    ensures
        final(buffer)@ == spec_splice(
            old(buffer)@,
            offset as int,
            seq![result],
        ),
{
    proof {
        lemma_auto_spec_u16_to_from_le_bytes();
        lemma_auto_spec_u32_to_from_le_bytes();
        lemma_auto_spec_u64_to_from_le_bytes();
    }
    write_u8(buffer, offset, result);
    proof {
        let b0 = old(buffer)@;
        let s1 = seq![result];
        assert(buffer@ == spec_splice(b0, offset as int, s1));
    }
}

fn encode_set_power(buffer: &mut Vec<u8>, offset: usize, level: u16)
    requires
        offset + 2 <= old(buffer).len(),
    ensures
        final(buffer)@ == spec_splice(
            old(buffer)@,
            offset as int,
            spec_u16_to_le_bytes(level),
        ),
{
    proof {
        lemma_auto_spec_u16_to_from_le_bytes();
        lemma_auto_spec_u32_to_from_le_bytes();
        lemma_auto_spec_u64_to_from_le_bytes();
    }
    write_u16(buffer, offset, level);
    proof {
        let b0 = old(buffer)@;
        let s1 = spec_u16_to_le_bytes(level);
        assert(buffer@ == spec_splice(b0, offset as int, s1));
    }
}

fn encode_set_label(buffer: &mut Vec<u8>, offset: usize, label: &String)
    requires
        offset + 32 <= old(buffer).len(),
        spec_text_fits(label@, 32),
    ensures
        final(buffer)@ == spec_splice(
            old(buffer)@,
            offset as int,
            spec_text_bytes(label@, 32),
        ),
{
    proof {
        lemma_auto_spec_u16_to_from_le_bytes();
        lemma_auto_spec_u32_to_from_le_bytes();
        lemma_auto_spec_u64_to_from_le_bytes();
    }
    match write_text(buffer, offset, label, 32) {
        Ok(_) => {},
        Err(_) => {},
    }
    proof {
        let b0 = old(buffer)@;
        let s1 = spec_text_bytes(label@, 32);
        assert(buffer@ == spec_splice(b0, offset as int, s1));
    }
}

fn encode_set_location(buffer: &mut Vec<u8>, offset: usize, location: &[u8; 16], label: &String, updated_at: u64)
    requires
        offset + 56 <= old(buffer).len(),
        spec_text_fits(label@, 32),
    ensures
        final(buffer)@ == spec_splice(
            old(buffer)@,
            offset as int,
            location@ + spec_text_bytes(label@, 32) + spec_u64_to_le_bytes(updated_at),
        ),
{
    proof {
        lemma_auto_spec_u16_to_from_le_bytes();
        lemma_auto_spec_u32_to_from_le_bytes();
        lemma_auto_spec_u64_to_from_le_bytes();
    }
    write_bytes(buffer, offset, location.as_slice());
    match write_text(buffer, offset + 16, label, 32) {
        Ok(_) => {},
        Err(_) => {},
    }
    write_u64(buffer, offset + 48, updated_at);
    proof {
        let b0 = old(buffer)@;
        let s1 = location@;
        let s2 = spec_text_bytes(label@, 32);
        let s3 = spec_u64_to_le_bytes(updated_at);
        lemma_splice_adjacent(b0, offset as int, s1, s2);
        lemma_splice_adjacent(b0, offset as int, s1 + s2, s3);
        assert(buffer@ == spec_splice(b0, offset as int, s1 + s2 + s3));
    }
}

fn encode_set_group(buffer: &mut Vec<u8>, offset: usize, group: &[u8; 16], label: &String, updated_at: u64)
    requires
        offset + 56 <= old(buffer).len(),
        spec_text_fits(label@, 32),
    ensures
        final(buffer)@ == spec_splice(
            old(buffer)@,
            offset as int,
            group@ + spec_text_bytes(label@, 32) + spec_u64_to_le_bytes(updated_at),
        ),
{
    proof {
        lemma_auto_spec_u16_to_from_le_bytes();
        lemma_auto_spec_u32_to_from_le_bytes();
        lemma_auto_spec_u64_to_from_le_bytes();
    }
    write_bytes(buffer, offset, group.as_slice());
    match write_text(buffer, offset + 16, label, 32) {
        Ok(_) => {},
        Err(_) => {},
    }
    write_u64(buffer, offset + 48, updated_at);
    proof {
        let b0 = old(buffer)@;
        let s1 = group@;
        let s2 = spec_text_bytes(label@, 32);
        let s3 = spec_u64_to_le_bytes(updated_at);
        lemma_splice_adjacent(b0, offset as int, s1, s2);
        lemma_splice_adjacent(b0, offset as int, s1 + s2, s3);
        assert(buffer@ == spec_splice(b0, offset as int, s1 + s2 + s3));
    }
}

fn encode_echo_request(buffer: &mut Vec<u8>, offset: usize, echoing: &[u8; 64])
    requires
        offset + 64 <= old(buffer).len(),
    ensures
        final(buffer)@ == spec_splice(
            old(buffer)@,
            offset as int,
            echoing@,
        ),
{
    proof {
        lemma_auto_spec_u16_to_from_le_bytes();
        lemma_auto_spec_u32_to_from_le_bytes();
        lemma_auto_spec_u64_to_from_le_bytes();
    }
    write_bytes(buffer, offset, echoing.as_slice());
    proof {
        let b0 = old(buffer)@;
        let s1 = echoing@;
        assert(buffer@ == spec_splice(b0, offset as int, s1));
    }
}

fn encode_set_color(buffer: &mut Vec<u8>, offset: usize, reserved_6: u8, hue: u16, saturation: u16, brightness: u16, kelvin: u16, duration_ms: u32)
    requires
        offset + 13 <= old(buffer).len(),
    ensures
        final(buffer)@ == spec_splice(
            old(buffer)@,
            offset as int,
            seq![reserved_6] + spec_u16_to_le_bytes(hue) + spec_u16_to_le_bytes(saturation) + spec_u16_to_le_bytes(brightness) + spec_u16_to_le_bytes(kelvin) + spec_u32_to_le_bytes(duration_ms),
        ),
{
    proof {
        lemma_auto_spec_u16_to_from_le_bytes();
        lemma_auto_spec_u32_to_from_le_bytes();
        lemma_auto_spec_u64_to_from_le_bytes();
    }
    write_u8(buffer, offset, reserved_6);
    write_u16(buffer, offset + 1, hue);
    write_u16(buffer, offset + 3, saturation);
    write_u16(buffer, offset + 5, brightness);
    write_u16(buffer, offset + 7, kelvin);
    write_u32(buffer, offset + 9, duration_ms);
    proof {
        let b0 = old(buffer)@;
        let s1 = seq![reserved_6];
        let s2 = spec_u16_to_le_bytes(hue);
        let s3 = spec_u16_to_le_bytes(saturation);
        let s4 = spec_u16_to_le_bytes(brightness);
        let s5 = spec_u16_to_le_bytes(kelvin);
        let s6 = spec_u32_to_le_bytes(duration_ms);
        lemma_splice_adjacent(b0, offset as int, s1, s2);
        lemma_splice_adjacent(b0, offset as int, s1 + s2, s3);
        lemma_splice_adjacent(b0, offset as int, s1 + s2 + s3, s4);
        lemma_splice_adjacent(b0, offset as int, s1 + s2 + s3 + s4, s5);
        lemma_splice_adjacent(b0, offset as int, s1 + s2 + s3 + s4 + s5, s6);
        assert(buffer@ == spec_splice(b0, offset as int, s1 + s2 + s3 + s4 + s5 + s6));
    }
}

fn encode_set_waveform(buffer: &mut Vec<u8>, offset: usize, reserved_6: u8, transient: u8, hue: u16, saturation: u16, brightness: u16, kelvin: u16, period_ms: u32, cycles: u32, skew_ratio: i16, waveform: u8)
    requires
        offset + 21 <= old(buffer).len(),
    ensures
        final(buffer)@ == spec_splice(
            old(buffer)@,
            offset as int,
            seq![reserved_6] + seq![transient] + spec_u16_to_le_bytes(hue) + spec_u16_to_le_bytes(saturation) + spec_u16_to_le_bytes(brightness) + spec_u16_to_le_bytes(kelvin) + spec_u32_to_le_bytes(period_ms) + spec_u32_to_le_bytes(cycles) + spec_i16_to_le_bytes(skew_ratio) + seq![waveform],
        ),
{
    proof {
        lemma_auto_spec_u16_to_from_le_bytes();
        lemma_auto_spec_u32_to_from_le_bytes();
        lemma_auto_spec_u64_to_from_le_bytes();
    }
    write_u8(buffer, offset, reserved_6);
    write_u8(buffer, offset + 1, transient);
    write_u16(buffer, offset + 2, hue);
    write_u16(buffer, offset + 4, saturation);
    write_u16(buffer, offset + 6, brightness);
    write_u16(buffer, offset + 8, kelvin);
    write_u32(buffer, offset + 10, period_ms);
    write_u32(buffer, offset + 14, cycles);
    write_i16(buffer, offset + 18, skew_ratio);
    write_u8(buffer, offset + 20, waveform);
    proof {
        let b0 = old(buffer)@;
        let s1 = seq![reserved_6];
        let s2 = seq![transient];
        let s3 = spec_u16_to_le_bytes(hue);
        let s4 = spec_u16_to_le_bytes(saturation);
        let s5 = spec_u16_to_le_bytes(brightness);
        let s6 = spec_u16_to_le_bytes(kelvin);
        let s7 = spec_u32_to_le_bytes(period_ms);
        let s8 = spec_u32_to_le_bytes(cycles);
        let s9 = spec_i16_to_le_bytes(skew_ratio);
        let s10 = seq![waveform];
        lemma_splice_adjacent(b0, offset as int, s1, s2);
        lemma_splice_adjacent(b0, offset as int, s1 + s2, s3);
        lemma_splice_adjacent(b0, offset as int, s1 + s2 + s3, s4);
        lemma_splice_adjacent(b0, offset as int, s1 + s2 + s3 + s4, s5);
        lemma_splice_adjacent(b0, offset as int, s1 + s2 + s3 + s4 + s5, s6);
        lemma_splice_adjacent(b0, offset as int, s1 + s2 + s3 + s4 + s5 + s6, s7);
        lemma_splice_adjacent(b0, offset as int, s1 + s2 + s3 + s4 + s5 + s6 + s7, s8);
        lemma_splice_adjacent(b0, offset as int, s1 + s2 + s3 + s4 + s5 + s6 + s7 + s8, s9);
        lemma_splice_adjacent(b0, offset as int, s1 + s2 + s3 + s4 + s5 + s6 + s7 + s8 + s9, s10);
        assert(buffer@ == spec_splice(b0, offset as int, s1 + s2 + s3 + s4 + s5 + s6 + s7 + s8 + s9 + s10));
    }
}

fn encode_set_light_power(buffer: &mut Vec<u8>, offset: usize, level: u16, duration_ms: u32)
    requires
        offset + 6 <= old(buffer).len(),
    ensures
        final(buffer)@ == spec_splice(
            old(buffer)@,
            offset as int,
            spec_u16_to_le_bytes(level) + spec_u32_to_le_bytes(duration_ms),
        ),
{
    proof {
        lemma_auto_spec_u16_to_from_le_bytes();
        lemma_auto_spec_u32_to_from_le_bytes();
        lemma_auto_spec_u64_to_from_le_bytes();
    }
    write_u16(buffer, offset, level);
    write_u32(buffer, offset + 2, duration_ms);
    proof {
        let b0 = old(buffer)@;
        let s1 = spec_u16_to_le_bytes(level);
        let s2 = spec_u32_to_le_bytes(duration_ms);
        lemma_splice_adjacent(b0, offset as int, s1, s2);
        assert(buffer@ == spec_splice(b0, offset as int, s1 + s2));
    }
}

fn encode_set_waveform_optional(buffer: &mut Vec<u8>, offset: usize, reserved_6: u8, transient: u8, hue: u16, saturation: u16, brightness: u16, kelvin: u16, period_ms: u32, cycles: u32, skew_ratio: i16, waveform: u8, set_hue: u8, set_saturation: u8, set_brightness: u8, set_kelvin: u8)
    requires
        offset + 25 <= old(buffer).len(),
    ensures
        final(buffer)@ == spec_splice(
            old(buffer)@,
            offset as int,
            seq![reserved_6] + seq![transient] + spec_u16_to_le_bytes(hue) + spec_u16_to_le_bytes(saturation) + spec_u16_to_le_bytes(brightness) + spec_u16_to_le_bytes(kelvin) + spec_u32_to_le_bytes(period_ms) + spec_u32_to_le_bytes(cycles) + spec_i16_to_le_bytes(skew_ratio) + seq![waveform] + seq![set_hue] + seq![set_saturation] + seq![set_brightness] + seq![set_kelvin],
        ),
{
    proof {
        lemma_auto_spec_u16_to_from_le_bytes();
        lemma_auto_spec_u32_to_from_le_bytes();
        lemma_auto_spec_u64_to_from_le_bytes();
    }
    write_u8(buffer, offset, reserved_6);
    write_u8(buffer, offset + 1, transient);
    write_u16(buffer, offset + 2, hue);
    write_u16(buffer, offset + 4, saturation);
    write_u16(buffer, offset + 6, brightness);
    write_u16(buffer, offset + 8, kelvin);
    write_u32(buffer, offset + 10, period_ms);
    write_u32(buffer, offset + 14, cycles);
    write_i16(buffer, offset + 18, skew_ratio);
    write_u8(buffer, offset + 20, waveform);
    write_u8(buffer, offset + 21, set_hue);
    write_u8(buffer, offset + 22, set_saturation);
    write_u8(buffer, offset + 23, set_brightness);
    write_u8(buffer, offset + 24, set_kelvin);
    proof {
        let b0 = old(buffer)@;
        let s1 = seq![reserved_6];
        let s2 = seq![transient];
        let s3 = spec_u16_to_le_bytes(hue);
        let s4 = spec_u16_to_le_bytes(saturation);
        let s5 = spec_u16_to_le_bytes(brightness);
        let s6 = spec_u16_to_le_bytes(kelvin);
        let s7 = spec_u32_to_le_bytes(period_ms);
        let s8 = spec_u32_to_le_bytes(cycles);
        let s9 = spec_i16_to_le_bytes(skew_ratio);
        let s10 = seq![waveform];
        let s11 = seq![set_hue];
        let s12 = seq![set_saturation];
        let s13 = seq![set_brightness];
        let s14 = seq![set_kelvin];
        lemma_splice_adjacent(b0, offset as int, s1, s2);
        lemma_splice_adjacent(b0, offset as int, s1 + s2, s3);
        lemma_splice_adjacent(b0, offset as int, s1 + s2 + s3, s4);
        lemma_splice_adjacent(b0, offset as int, s1 + s2 + s3 + s4, s5);
        lemma_splice_adjacent(b0, offset as int, s1 + s2 + s3 + s4 + s5, s6);
        lemma_splice_adjacent(b0, offset as int, s1 + s2 + s3 + s4 + s5 + s6, s7);
        lemma_splice_adjacent(b0, offset as int, s1 + s2 + s3 + s4 + s5 + s6 + s7, s8);
        lemma_splice_adjacent(b0, offset as int, s1 + s2 + s3 + s4 + s5 + s6 + s7 + s8, s9);
        lemma_splice_adjacent(b0, offset as int, s1 + s2 + s3 + s4 + s5 + s6 + s7 + s8 + s9, s10);
        lemma_splice_adjacent(b0, offset as int, s1 + s2 + s3 + s4 + s5 + s6 + s7 + s8 + s9 + s10, s11);
        lemma_splice_adjacent(b0, offset as int, s1 + s2 + s3 + s4 + s5 + s6 + s7 + s8 + s9 + s10 + s11, s12);
        lemma_splice_adjacent(b0, offset as int, s1 + s2 + s3 + s4 + s5 + s6 + s7 + s8 + s9 + s10 + s11 + s12, s13);
        lemma_splice_adjacent(b0, offset as int, s1 + s2 + s3 + s4 + s5 + s6 + s7 + s8 + s9 + s10 + s11 + s12 + s13, s14);
        assert(buffer@ == spec_splice(b0, offset as int, s1 + s2 + s3 + s4 + s5 + s6 + s7 + s8 + s9 + s10 + s11 + s12 + s13 + s14));
    }
}

fn encode_set_infrared(buffer: &mut Vec<u8>, offset: usize, brightness: u16)
    requires
        offset + 2 <= old(buffer).len(),
    ensures
        final(buffer)@ == spec_splice(
            old(buffer)@,
            offset as int,
            spec_u16_to_le_bytes(brightness),
        ),
{
    proof {
        lemma_auto_spec_u16_to_from_le_bytes();
        lemma_auto_spec_u32_to_from_le_bytes();
        lemma_auto_spec_u64_to_from_le_bytes();
    }
    write_u16(buffer, offset, brightness);
    proof {
        let b0 = old(buffer)@;
        let s1 = spec_u16_to_le_bytes(brightness);
        assert(buffer@ == spec_splice(b0, offset as int, s1));
    }
}

fn encode_set_hev_cycle(buffer: &mut Vec<u8>, offset: usize, duration_s: u32)
    requires
        offset + 4 <= old(buffer).len(),
    ensures
        final(buffer)@ == spec_splice(
            old(buffer)@,
            offset as int,
            spec_u32_to_le_bytes(duration_s),
        ),
{
    proof {
        lemma_auto_spec_u16_to_from_le_bytes();
        lemma_auto_spec_u32_to_from_le_bytes();
        lemma_auto_spec_u64_to_from_le_bytes();
    }
    write_u32(buffer, offset, duration_s);
    proof {
        let b0 = old(buffer)@;
        let s1 = spec_u32_to_le_bytes(duration_s);
        assert(buffer@ == spec_splice(b0, offset as int, s1));
    }
}

fn encode_set_hev_cycle_configuration(buffer: &mut Vec<u8>, offset: usize, indication: u8, duration_s: u32)
    requires
        offset + 5 <= old(buffer).len(),
    ensures
        final(buffer)@ == spec_splice(
            old(buffer)@,
            offset as int,
            seq![indication] + spec_u32_to_le_bytes(duration_s),
        ),
{
    proof {
        lemma_auto_spec_u16_to_from_le_bytes();
        lemma_auto_spec_u32_to_from_le_bytes();
        lemma_auto_spec_u64_to_from_le_bytes();
    }
    write_u8(buffer, offset, indication);
    write_u32(buffer, offset + 1, duration_s);
    proof {
        let b0 = old(buffer)@;
        let s1 = seq![indication];
        let s2 = spec_u32_to_le_bytes(duration_s);
        lemma_splice_adjacent(b0, offset as int, s1, s2);
        assert(buffer@ == spec_splice(b0, offset as int, s1 + s2));
    }
}

fn encode_set_access_point(buffer: &mut Vec<u8>, offset: usize, interface: u8, ssid: &String, password: &String, protocol: u8)
    requires
        offset + 98 <= old(buffer).len(),
        spec_text_fits(ssid@, 32),
        spec_text_fits(password@, 64),
    ensures
        final(buffer)@ == spec_splice(
            old(buffer)@,
            offset as int,
            seq![interface] + spec_text_bytes(ssid@, 32) + spec_text_bytes(password@, 64) + seq![protocol],
        ),
{
    proof {
        lemma_auto_spec_u16_to_from_le_bytes();
        lemma_auto_spec_u32_to_from_le_bytes();
        lemma_auto_spec_u64_to_from_le_bytes();
    }
    write_u8(buffer, offset, interface);
    match write_text(buffer, offset + 1, ssid, 32) {
        Ok(_) => {},
        Err(_) => {},
    }
    match write_text(buffer, offset + 33, password, 64) {
        Ok(_) => {},
        Err(_) => {},
    }
    write_u8(buffer, offset + 97, protocol);
    proof {
        let b0 = old(buffer)@;
        let s1 = seq![interface];
        let s2 = spec_text_bytes(ssid@, 32);
        let s3 = spec_text_bytes(password@, 64);
        let s4 = seq![protocol];
        lemma_splice_adjacent(b0, offset as int, s1, s2);
        lemma_splice_adjacent(b0, offset as int, s1 + s2, s3);
        lemma_splice_adjacent(b0, offset as int, s1 + s2 + s3, s4);
        assert(buffer@ == spec_splice(b0, offset as int, s1 + s2 + s3 + s4));
    }
}

/// A well-formed message whose text fits encodes to exactly its declared
/// payload size.
pub proof fn lemma_payload_bytes_len(m: MessageModel)
    requires
        spec_msg_wf(m),
        spec_msg_fits(m),
    ensures
        spec_payload_bytes(m).len() == spec_payload_size(m),
{
    lemma_auto_spec_u16_to_from_le_bytes();
    lemma_auto_spec_u32_to_from_le_bytes();
    lemma_auto_spec_u64_to_from_le_bytes();
    match m {
        MessageModel::Service { .. } => {},
        MessageModel::StateService { .. } => {},
        MessageModel::GetMeshInfo { .. } => {},
        MessageModel::MeshInfo { .. } => {},
        MessageModel::HostFirmware { .. } => {},
        MessageModel::WifiInfo { .. } => {},
        MessageModel::WifiFirmware { .. } => {},
        MessageModel::Power { .. } => {},
        MessageModel::Label { .. } => {},
        MessageModel::Version { .. } => {},
        MessageModel::Info { .. } => {},
        MessageModel::Location { .. } => {},
        MessageModel::Group { .. } => {},
        MessageModel::EchoResponse { .. } => {},
        MessageModel::Unhandled { .. } => {},
        MessageModel::LightState { .. } => {},
        MessageModel::LightPower { .. } => {},
        MessageModel::Infrared { .. } => {},
        MessageModel::HevCycle { .. } => {},
        MessageModel::HevCycleConfig { .. } => {},
        MessageModel::LastHevCycleResult { .. } => {},
        MessageModel::GetService => {},
        MessageModel::GetHostFirmware => {},
        MessageModel::GetWifiInfo => {},
        MessageModel::GetWifiFirmware => {},
        MessageModel::GetPower => {},
        MessageModel::SetPower { .. } => {},
        MessageModel::GetLabel => {},
        MessageModel::SetLabel { .. } => {},
        MessageModel::GetVersion => {},
        MessageModel::GetInfo => {},
        MessageModel::SetReboot => {},
        MessageModel::GetLocation => {},
        MessageModel::SetLocation { .. } => {},
        MessageModel::GetGroup => {},
        MessageModel::SetGroup { .. } => {},
        MessageModel::EchoRequest { .. } => {},
        MessageModel::GetColor => {},
        MessageModel::SetColor { .. } => {},
        MessageModel::SetWaveform { .. } => {},
        MessageModel::GetLightPower => {},
        MessageModel::SetLightPower { .. } => {},
        MessageModel::SetWaveformOptional { .. } => {},
        MessageModel::GetInfrared => {},
        MessageModel::SetInfrared { .. } => {},
        MessageModel::GetHevCycle => {},
        MessageModel::SetHevCycle { .. } => {},
        MessageModel::GetHevCycleConfiguration => {},
        MessageModel::SetHevCycleConfiguration { .. } => {},
        MessageModel::GetLastHevCycleResult => {},
        MessageModel::SetAccessPoint { .. } => {},
    }
}

impl LifxPayload for Message {

    /// Decode the payload that `packet_number` selects from the start of
    /// `bytes`: exactly [`spec_decode_payload`] of the buffer.
    fn from_bytes(packet_number: u16, bytes: &[u8]) -> (r: Result<Self, LifxDeserializationError>)
        ensures
            r is Ok <==> spec_decode_payload(packet_number, bytes@) is Ok,
            r matches Ok(m) ==> spec_decode_payload(packet_number, bytes@) matches Ok(v) && m@
                == v,
            r matches Err(e) ==> spec_decode_payload(packet_number, bytes@) matches Err(e2) && e
                == e2,
    {
        match packet_number {
            1 => {
                if bytes.len() < 5 {
                    return Err(LifxDeserializationError::InvalidPacketSize);
                }
                Ok(Message::Service { service: read_u8(bytes, 0), port: read_u32(bytes, 1) })
            },
            3 => {
                if bytes.len() < 5 {
                    return Err(LifxDeserializationError::InvalidPacketSize);
                }
                Ok(Message::StateService { service: read_u8(bytes, 0), port: read_u32(bytes, 1) })
            },
            12 => {
                Ok(Message::GetMeshInfo {})
            },
            13 => {
                if bytes.len() < 14 {
                    return Err(LifxDeserializationError::InvalidPacketSize);
                }
                Ok(Message::MeshInfo { signal: read_u32(bytes, 0), tx: read_u32(bytes, 4), rx: read_u32(bytes, 8), mcu_temperature: read_u16(bytes, 12) })
            },
            15 => {
                if bytes.len() < 20 {
                    return Err(LifxDeserializationError::InvalidPacketSize);
                }
                Ok(Message::HostFirmware { build: read_u64(bytes, 0), reserved_6: read_array::<8>(bytes, 8), version_minor: read_u16(bytes, 16), version_major: read_u16(bytes, 18) })
            },
            17 => {
                if bytes.len() < 14 {
                    return Err(LifxDeserializationError::InvalidPacketSize);
                }
                Ok(Message::WifiInfo { signal: read_u32(bytes, 0), tx: read_u32(bytes, 4), rx: read_u32(bytes, 8), mcu_temperature: read_u16(bytes, 12) })
            },
            19 => {
                if bytes.len() < 20 {
                    return Err(LifxDeserializationError::InvalidPacketSize);
                }
                Ok(Message::WifiFirmware { build: read_u64(bytes, 0), reserved_6: read_array::<8>(bytes, 8), version_minor: read_u16(bytes, 16), version_major: read_u16(bytes, 18) })
            },
            22 => {
                if bytes.len() < 2 {
                    return Err(LifxDeserializationError::InvalidPacketSize);
                }
                Ok(Message::Power { level: read_u16(bytes, 0) })
            },
            25 => {
                if bytes.len() < 32 {
                    return Err(LifxDeserializationError::InvalidPacketSize);
                }
                let label = match deserialize_string(slice_subrange(bytes, 0, 32)) {
                    Ok(s) => s,
                    Err(e) => {
                        return Err(e);
                    },
                };
                Ok(Message::Label { label })
            },
            33 => {
                if bytes.len() < 12 {
                    return Err(LifxDeserializationError::InvalidPacketSize);
                }
                Ok(Message::Version { vendor: read_u32(bytes, 0), product: read_u32(bytes, 4), reserved_6: read_u32(bytes, 8) })
            },
            35 => {
                if bytes.len() < 24 {
                    return Err(LifxDeserializationError::InvalidPacketSize);
                }
                Ok(Message::Info { time: read_u64(bytes, 0), uptime: read_u64(bytes, 8), downtime: read_u64(bytes, 16) })
            },
            50 => {
                if bytes.len() < 56 {
                    return Err(LifxDeserializationError::InvalidPacketSize);
                }
                let label = match deserialize_string(slice_subrange(bytes, 16, 48)) {
                    Ok(s) => s,
                    Err(e) => {
                        return Err(e);
                    },
                };
                Ok(Message::Location { location: read_array::<16>(bytes, 0), label, updated_at: read_u64(bytes, 48) })
            },
            53 => {
                if bytes.len() < 56 {
                    return Err(LifxDeserializationError::InvalidPacketSize);
                }
                let label = match deserialize_string(slice_subrange(bytes, 16, 48)) {
                    Ok(s) => s,
                    Err(e) => {
                        return Err(e);
                    },
                };
                Ok(Message::Group { group: read_array::<16>(bytes, 0), label, updated_at: read_u64(bytes, 48) })
            },
            59 => {
                if bytes.len() < 64 {
                    return Err(LifxDeserializationError::InvalidPacketSize);
                }
                Ok(Message::EchoResponse { echoing: read_array::<64>(bytes, 0) })
            },
            223 => {
                if bytes.len() < 2 {
                    return Err(LifxDeserializationError::InvalidPacketSize);
                }
                Ok(Message::Unhandled { unhandled_type: read_u16(bytes, 0) })
            },
            107 => {
                if bytes.len() < 52 {
                    return Err(LifxDeserializationError::InvalidPacketSize);
                }
                let label = match deserialize_string(slice_subrange(bytes, 12, 44)) {
                    Ok(s) => s,
                    Err(e) => {
                        return Err(e);
                    },
                };
                Ok(Message::LightState { hue: read_u16(bytes, 0), saturation: read_u16(bytes, 2), brightness: read_u16(bytes, 4), kelvin: read_u16(bytes, 6), reserved_6: read_array::<2>(bytes, 8), power: read_u16(bytes, 10), label, reserved_7: read_array::<8>(bytes, 44) })
            },
            118 => {
                if bytes.len() < 2 {
                    return Err(LifxDeserializationError::InvalidPacketSize);
                }
                Ok(Message::LightPower { level: read_u16(bytes, 0) })
            },
            121 => {
                if bytes.len() < 2 {
                    return Err(LifxDeserializationError::InvalidPacketSize);
                }
                Ok(Message::Infrared { brightness: read_u16(bytes, 0) })
            },
            144 => {
                if bytes.len() < 9 {
                    return Err(LifxDeserializationError::InvalidPacketSize);
                }
                Ok(Message::HevCycle { duration_s: read_u32(bytes, 0), remaining_s: read_u32(bytes, 4), last_power: read_u8(bytes, 8) })
            },
            147 => {
                if bytes.len() < 5 {
                    return Err(LifxDeserializationError::InvalidPacketSize);
                }
                Ok(Message::HevCycleConfig { indication: read_u8(bytes, 0), duration_s: read_u32(bytes, 1) })
            },
            149 => {
                if bytes.len() < 1 {
                    return Err(LifxDeserializationError::InvalidPacketSize);
                }
                Ok(Message::LastHevCycleResult { result: read_u8(bytes, 0) })
            },
            2 => {
                Ok(Message::GetService)
            },
            14 => {
                Ok(Message::GetHostFirmware)
            },
            16 => {
                Ok(Message::GetWifiInfo)
            },
            18 => {
                Ok(Message::GetWifiFirmware)
            },
            20 => {
                Ok(Message::GetPower)
            },
            21 => {
                if bytes.len() < 2 {
                    return Err(LifxDeserializationError::InvalidPacketSize);
                }
                Ok(Message::SetPower { level: read_u16(bytes, 0) })
            },
            23 => {
                Ok(Message::GetLabel)
            },
            24 => {
                if bytes.len() < 32 {
                    return Err(LifxDeserializationError::InvalidPacketSize);
                }
                let label = match deserialize_string(slice_subrange(bytes, 0, 32)) {
                    Ok(s) => s,
                    Err(e) => {
                        return Err(e);
                    },
                };
                Ok(Message::SetLabel { label })
            },
            32 => {
                Ok(Message::GetVersion)
            },
            34 => {
                Ok(Message::GetInfo)
            },
            38 => {
                Ok(Message::SetReboot)
            },
            48 => {
                Ok(Message::GetLocation)
            },
            49 => {
                if bytes.len() < 56 {
                    return Err(LifxDeserializationError::InvalidPacketSize);
                }
                let label = match deserialize_string(slice_subrange(bytes, 16, 48)) {
                    Ok(s) => s,
                    Err(e) => {
                        return Err(e);
                    },
                };
                Ok(Message::SetLocation { location: read_array::<16>(bytes, 0), label, updated_at: read_u64(bytes, 48) })
            },
            51 => {
                Ok(Message::GetGroup)
            },
            52 => {
                if bytes.len() < 56 {
                    return Err(LifxDeserializationError::InvalidPacketSize);
                }
                let label = match deserialize_string(slice_subrange(bytes, 16, 48)) {
                    Ok(s) => s,
                    Err(e) => {
                        return Err(e);
                    },
                };
                Ok(Message::SetGroup { group: read_array::<16>(bytes, 0), label, updated_at: read_u64(bytes, 48) })
            },
            58 => {
                if bytes.len() < 64 {
                    return Err(LifxDeserializationError::InvalidPacketSize);
                }
                Ok(Message::EchoRequest { echoing: read_array::<64>(bytes, 0) })
            },
            101 => {
                Ok(Message::GetColor)
            },
            102 => {
                if bytes.len() < 13 {
                    return Err(LifxDeserializationError::InvalidPacketSize);
                }
                Ok(Message::SetColor { reserved_6: read_u8(bytes, 0), hue: read_u16(bytes, 1), saturation: read_u16(bytes, 3), brightness: read_u16(bytes, 5), kelvin: read_u16(bytes, 7), duration_ms: read_u32(bytes, 9) })
            },
            103 => {
                if bytes.len() < 21 {
                    return Err(LifxDeserializationError::InvalidPacketSize);
                }
                Ok(Message::SetWaveform { reserved_6: read_u8(bytes, 0), transient: read_u8(bytes, 1), hue: read_u16(bytes, 2), saturation: read_u16(bytes, 4), brightness: read_u16(bytes, 6), kelvin: read_u16(bytes, 8), period_ms: read_u32(bytes, 10), cycles: read_u32(bytes, 14), skew_ratio: read_i16(bytes, 18), waveform: read_u8(bytes, 20) })
            },
            116 => {
                Ok(Message::GetLightPower)
            },
            117 => {
                if bytes.len() < 6 {
                    return Err(LifxDeserializationError::InvalidPacketSize);
                }
                Ok(Message::SetLightPower { level: read_u16(bytes, 0), duration_ms: read_u32(bytes, 2) })
            },
            119 => {
                if bytes.len() < 25 {
                    return Err(LifxDeserializationError::InvalidPacketSize);
                }
                Ok(Message::SetWaveformOptional { reserved_6: read_u8(bytes, 0), transient: read_u8(bytes, 1), hue: read_u16(bytes, 2), saturation: read_u16(bytes, 4), brightness: read_u16(bytes, 6), kelvin: read_u16(bytes, 8), period_ms: read_u32(bytes, 10), cycles: read_u32(bytes, 14), skew_ratio: read_i16(bytes, 18), waveform: read_u8(bytes, 20), set_hue: read_u8(bytes, 21), set_saturation: read_u8(bytes, 22), set_brightness: read_u8(bytes, 23), set_kelvin: read_u8(bytes, 24) })
            },
            120 => {
                Ok(Message::GetInfrared)
            },
            122 => {
                if bytes.len() < 2 {
                    return Err(LifxDeserializationError::InvalidPacketSize);
                }
                Ok(Message::SetInfrared { brightness: read_u16(bytes, 0) })
            },
            142 => {
                Ok(Message::GetHevCycle)
            },
            143 => {
                if bytes.len() < 4 {
                    return Err(LifxDeserializationError::InvalidPacketSize);
                }
                Ok(Message::SetHevCycle { duration_s: read_u32(bytes, 0) })
            },
            145 => {
                Ok(Message::GetHevCycleConfiguration)
            },
            146 => {
                if bytes.len() < 5 {
                    return Err(LifxDeserializationError::InvalidPacketSize);
                }
                Ok(Message::SetHevCycleConfiguration { indication: read_u8(bytes, 0), duration_s: read_u32(bytes, 1) })
            },
            148 => {
                Ok(Message::GetLastHevCycleResult)
            },
            305 => {
                if bytes.len() < 98 {
                    return Err(LifxDeserializationError::InvalidPacketSize);
                }
                let ssid = match deserialize_string(slice_subrange(bytes, 1, 33)) {
                    Ok(s) => s,
                    Err(e) => {
                        return Err(e);
                    },
                };
                let password = match deserialize_string(slice_subrange(bytes, 33, 97)) {
                    Ok(s) => s,
                    Err(e) => {
                        return Err(e);
                    },
                };
                Ok(Message::SetAccessPoint { interface: read_u8(bytes, 0), ssid, password, protocol: read_u8(bytes, 97) })
            },
            _ => Err(LifxDeserializationError::InvalidPacketNumber(packet_number)),
        }
    }

    /// Encode the payload into `buffer` at `offset`, leaving every byte
    /// outside the written range unchanged and returning the payload size.
    /// A buffer too short for the variant's fixed size is rejected first;
    /// then text that does not fit its field width, which is never
    /// truncated.
    #[verifier::rlimit(100)]
    #[verifier::spinoff_prover]
    fn to_bytes(&self, buffer: &mut Vec<u8>, offset: usize) -> (r: Result<
        usize,
        LifxSerializationError,
    >)
        ensures
            r is Ok <==> offset + spec_payload_size(self@) <= old(buffer).len() && spec_msg_fits(
                self@,
            ),
            r matches Ok(n) ==> n == spec_payload_size(self@) && final(buffer)@ == spec_splice(
                old(buffer)@,
                offset as int,
                spec_payload_bytes(self@),
            ),
            r == Err::<usize, LifxSerializationError>(LifxSerializationError::BufferTooSmall)
                <==> offset + spec_payload_size(self@) > old(buffer).len(),
            r == Err::<usize, LifxSerializationError>(LifxSerializationError::OversizedText)
                <==> offset + spec_payload_size(self@) <= old(buffer).len() && !spec_msg_fits(
                self@,
            ),
            r is Err ==> final(buffer)@ == old(buffer)@,
    {
        let size = self.size();
        if buffer.len() < offset || buffer.len() - offset < size {
            return Err(LifxSerializationError::BufferTooSmall);
        }
        if !self.labels_fit() {
            return Err(LifxSerializationError::OversizedText);
        }
        match self {
            Message::Service { service, port } => {
                encode_service(buffer, offset, *service, *port);
                proof {
                    assert(seq![(*service)] + spec_u32_to_le_bytes((*port)) =~= spec_payload_bytes(self@));
                }
            },
            Message::StateService { service, port } => {
                encode_state_service(buffer, offset, *service, *port);
                proof {
                    assert(seq![(*service)] + spec_u32_to_le_bytes((*port)) =~= spec_payload_bytes(self@));
                }
            },
            Message::GetMeshInfo {} => {
                proof {
                    assert(buffer@ =~= spec_splice(
                        old(buffer)@,
                        offset as int,
                        spec_payload_bytes(self@),
                    ));
                }
            },
            Message::MeshInfo { signal, tx, rx, mcu_temperature } => {
                encode_mesh_info(buffer, offset, *signal, *tx, *rx, *mcu_temperature);
                proof {
                    assert(spec_u32_to_le_bytes((*signal)) + spec_u32_to_le_bytes((*tx)) + spec_u32_to_le_bytes((*rx)) + spec_u16_to_le_bytes((*mcu_temperature)) =~= spec_payload_bytes(self@));
                }
            },
            Message::HostFirmware { build, reserved_6, version_minor, version_major } => {
                encode_host_firmware(buffer, offset, *build, reserved_6, *version_minor, *version_major);
                proof {
                    assert(spec_u64_to_le_bytes((*build)) + reserved_6@ + spec_u16_to_le_bytes((*version_minor)) + spec_u16_to_le_bytes((*version_major)) =~= spec_payload_bytes(self@));
                }
            },
            Message::WifiInfo { signal, tx, rx, mcu_temperature } => {
                encode_wifi_info(buffer, offset, *signal, *tx, *rx, *mcu_temperature);
                proof {
                    assert(spec_u32_to_le_bytes((*signal)) + spec_u32_to_le_bytes((*tx)) + spec_u32_to_le_bytes((*rx)) + spec_u16_to_le_bytes((*mcu_temperature)) =~= spec_payload_bytes(self@));
                }
            },
            Message::WifiFirmware { build, reserved_6, version_minor, version_major } => {
                encode_wifi_firmware(buffer, offset, *build, reserved_6, *version_minor, *version_major);
                proof {
                    assert(spec_u64_to_le_bytes((*build)) + reserved_6@ + spec_u16_to_le_bytes((*version_minor)) + spec_u16_to_le_bytes((*version_major)) =~= spec_payload_bytes(self@));
                }
            },
            Message::Power { level } => {
                encode_power(buffer, offset, *level);
                proof {
                    assert(spec_u16_to_le_bytes((*level)) =~= spec_payload_bytes(self@));
                }
            },
            Message::Label { label } => {
                encode_label(buffer, offset, label);
                proof {
                    assert(spec_text_bytes(label@, 32) =~= spec_payload_bytes(self@));
                }
            },
            Message::Version { vendor, product, reserved_6 } => {
                encode_version(buffer, offset, *vendor, *product, *reserved_6);
                proof {
                    assert(spec_u32_to_le_bytes((*vendor)) + spec_u32_to_le_bytes((*product)) + spec_u32_to_le_bytes((*reserved_6)) =~= spec_payload_bytes(self@));
                }
            },
            Message::Info { time, uptime, downtime } => {
                encode_info(buffer, offset, *time, *uptime, *downtime);
                proof {
                    assert(spec_u64_to_le_bytes((*time)) + spec_u64_to_le_bytes((*uptime)) + spec_u64_to_le_bytes((*downtime)) =~= spec_payload_bytes(self@));
                }
            },
            Message::Location { location, label, updated_at } => {
                encode_location(buffer, offset, location, label, *updated_at);
                proof {
                    assert(location@ + spec_text_bytes(label@, 32) + spec_u64_to_le_bytes((*updated_at)) =~= spec_payload_bytes(self@));
                }
            },
            Message::Group { group, label, updated_at } => {
                encode_group(buffer, offset, group, label, *updated_at);
                proof {
                    assert(group@ + spec_text_bytes(label@, 32) + spec_u64_to_le_bytes((*updated_at)) =~= spec_payload_bytes(self@));
                }
            },
            Message::EchoResponse { echoing } => {
                encode_echo_response(buffer, offset, echoing);
                proof {
                    assert(echoing@ =~= spec_payload_bytes(self@));
                }
            },
            Message::Unhandled { unhandled_type } => {
                encode_unhandled(buffer, offset, *unhandled_type);
                proof {
                    assert(spec_u16_to_le_bytes((*unhandled_type)) =~= spec_payload_bytes(self@));
                }
            },
            Message::LightState { hue, saturation, brightness, kelvin, reserved_6, power, label, reserved_7 } => {
                encode_light_state(buffer, offset, *hue, *saturation, *brightness, *kelvin, reserved_6, *power, label, reserved_7);
                proof {
                    assert(spec_u16_to_le_bytes((*hue)) + spec_u16_to_le_bytes((*saturation)) + spec_u16_to_le_bytes((*brightness)) + spec_u16_to_le_bytes((*kelvin)) + reserved_6@ + spec_u16_to_le_bytes((*power)) + spec_text_bytes(label@, 32) + reserved_7@ =~= spec_payload_bytes(self@));
                }
            },
            Message::LightPower { level } => {
                encode_light_power(buffer, offset, *level);
                proof {
                    assert(spec_u16_to_le_bytes((*level)) =~= spec_payload_bytes(self@));
                }
            },
            Message::Infrared { brightness } => {
                encode_infrared(buffer, offset, *brightness);
                proof {
                    assert(spec_u16_to_le_bytes((*brightness)) =~= spec_payload_bytes(self@));
                }
            },
            Message::HevCycle { duration_s, remaining_s, last_power } => {
                encode_hev_cycle(buffer, offset, *duration_s, *remaining_s, *last_power);
                proof {
                    assert(spec_u32_to_le_bytes((*duration_s)) + spec_u32_to_le_bytes((*remaining_s)) + seq![(*last_power)] =~= spec_payload_bytes(self@));
                }
            },
            Message::HevCycleConfig { indication, duration_s } => {
                encode_hev_cycle_config(buffer, offset, *indication, *duration_s);
                proof {
                    assert(seq![(*indication)] + spec_u32_to_le_bytes((*duration_s)) =~= spec_payload_bytes(self@));
                }
            },
            Message::LastHevCycleResult { result } => {
                encode_last_hev_cycle_result(buffer, offset, *result);
                proof {
                    assert(seq![(*result)] =~= spec_payload_bytes(self@));
                }
            },
            Message::GetService => {
                proof {
                    assert(buffer@ =~= spec_splice(
                        old(buffer)@,
                        offset as int,
                        spec_payload_bytes(self@),
                    ));
                }
            },
            Message::GetHostFirmware => {
                proof {
                    assert(buffer@ =~= spec_splice(
                        old(buffer)@,
                        offset as int,
                        spec_payload_bytes(self@),
                    ));
                }
            },
            Message::GetWifiInfo => {
                proof {
                    assert(buffer@ =~= spec_splice(
                        old(buffer)@,
                        offset as int,
                        spec_payload_bytes(self@),
                    ));
                }
            },
            Message::GetWifiFirmware => {
                proof {
                    assert(buffer@ =~= spec_splice(
                        old(buffer)@,
                        offset as int,
                        spec_payload_bytes(self@),
                    ));
                }
            },
            Message::GetPower => {
                proof {
                    assert(buffer@ =~= spec_splice(
                        old(buffer)@,
                        offset as int,
                        spec_payload_bytes(self@),
                    ));
                }
            },
            Message::SetPower { level } => {
                encode_set_power(buffer, offset, *level);
                proof {
                    assert(spec_u16_to_le_bytes((*level)) =~= spec_payload_bytes(self@));
                }
            },
            Message::GetLabel => {
                proof {
                    assert(buffer@ =~= spec_splice(
                        old(buffer)@,
                        offset as int,
                        spec_payload_bytes(self@),
                    ));
                }
            },
            Message::SetLabel { label } => {
                encode_set_label(buffer, offset, label);
                proof {
                    assert(spec_text_bytes(label@, 32) =~= spec_payload_bytes(self@));
                }
            },
            Message::GetVersion => {
                proof {
                    assert(buffer@ =~= spec_splice(
                        old(buffer)@,
                        offset as int,
                        spec_payload_bytes(self@),
                    ));
                }
            },
            Message::GetInfo => {
                proof {
                    assert(buffer@ =~= spec_splice(
                        old(buffer)@,
                        offset as int,
                        spec_payload_bytes(self@),
                    ));
                }
            },
            Message::SetReboot => {
                proof {
                    assert(buffer@ =~= spec_splice(
                        old(buffer)@,
                        offset as int,
                        spec_payload_bytes(self@),
                    ));
                }
            },
            Message::GetLocation => {
                proof {
                    assert(buffer@ =~= spec_splice(
                        old(buffer)@,
                        offset as int,
                        spec_payload_bytes(self@),
                    ));
                }
            },
            Message::SetLocation { location, label, updated_at } => {
                encode_set_location(buffer, offset, location, label, *updated_at);
                proof {
                    assert(location@ + spec_text_bytes(label@, 32) + spec_u64_to_le_bytes((*updated_at)) =~= spec_payload_bytes(self@));
                }
            },
            Message::GetGroup => {
                proof {
                    assert(buffer@ =~= spec_splice(
                        old(buffer)@,
                        offset as int,
                        spec_payload_bytes(self@),
                    ));
                }
            },
            Message::SetGroup { group, label, updated_at } => {
                encode_set_group(buffer, offset, group, label, *updated_at);
                proof {
                    assert(group@ + spec_text_bytes(label@, 32) + spec_u64_to_le_bytes((*updated_at)) =~= spec_payload_bytes(self@));
                }
            },
            Message::EchoRequest { echoing } => {
                encode_echo_request(buffer, offset, echoing);
                proof {
                    assert(echoing@ =~= spec_payload_bytes(self@));
                }
            },
            Message::GetColor => {
                proof {
                    assert(buffer@ =~= spec_splice(
                        old(buffer)@,
                        offset as int,
                        spec_payload_bytes(self@),
                    ));
                }
            },
            Message::SetColor { reserved_6, hue, saturation, brightness, kelvin, duration_ms } => {
                encode_set_color(buffer, offset, *reserved_6, *hue, *saturation, *brightness, *kelvin, *duration_ms);
                proof {
                    assert(seq![(*reserved_6)] + spec_u16_to_le_bytes((*hue)) + spec_u16_to_le_bytes((*saturation)) + spec_u16_to_le_bytes((*brightness)) + spec_u16_to_le_bytes((*kelvin)) + spec_u32_to_le_bytes((*duration_ms)) =~= spec_payload_bytes(self@));
                }
            },
            Message::SetWaveform { reserved_6, transient, hue, saturation, brightness, kelvin, period_ms, cycles, skew_ratio, waveform } => {
                encode_set_waveform(buffer, offset, *reserved_6, *transient, *hue, *saturation, *brightness, *kelvin, *period_ms, *cycles, *skew_ratio, *waveform);
                proof {
                    assert(seq![(*reserved_6)] + seq![(*transient)] + spec_u16_to_le_bytes((*hue)) + spec_u16_to_le_bytes((*saturation)) + spec_u16_to_le_bytes((*brightness)) + spec_u16_to_le_bytes((*kelvin)) + spec_u32_to_le_bytes((*period_ms)) + spec_u32_to_le_bytes((*cycles)) + spec_i16_to_le_bytes((*skew_ratio)) + seq![(*waveform)] =~= spec_payload_bytes(self@));
                }
            },
            Message::GetLightPower => {
                proof {
                    assert(buffer@ =~= spec_splice(
                        old(buffer)@,
                        offset as int,
                        spec_payload_bytes(self@),
                    ));
                }
            },
            Message::SetLightPower { level, duration_ms } => {
                encode_set_light_power(buffer, offset, *level, *duration_ms);
                proof {
                    assert(spec_u16_to_le_bytes((*level)) + spec_u32_to_le_bytes((*duration_ms)) =~= spec_payload_bytes(self@));
                }
            },
            Message::SetWaveformOptional { reserved_6, transient, hue, saturation, brightness, kelvin, period_ms, cycles, skew_ratio, waveform, set_hue, set_saturation, set_brightness, set_kelvin } => {
                encode_set_waveform_optional(buffer, offset, *reserved_6, *transient, *hue, *saturation, *brightness, *kelvin, *period_ms, *cycles, *skew_ratio, *waveform, *set_hue, *set_saturation, *set_brightness, *set_kelvin);
                proof {
                    assert(seq![(*reserved_6)] + seq![(*transient)] + spec_u16_to_le_bytes((*hue)) + spec_u16_to_le_bytes((*saturation)) + spec_u16_to_le_bytes((*brightness)) + spec_u16_to_le_bytes((*kelvin)) + spec_u32_to_le_bytes((*period_ms)) + spec_u32_to_le_bytes((*cycles)) + spec_i16_to_le_bytes((*skew_ratio)) + seq![(*waveform)] + seq![(*set_hue)] + seq![(*set_saturation)] + seq![(*set_brightness)] + seq![(*set_kelvin)] =~= spec_payload_bytes(self@));
                }
            },
            Message::GetInfrared => {
                proof {
                    assert(buffer@ =~= spec_splice(
                        old(buffer)@,
                        offset as int,
                        spec_payload_bytes(self@),
                    ));
                }
            },
            Message::SetInfrared { brightness } => {
                encode_set_infrared(buffer, offset, *brightness);
                proof {
                    assert(spec_u16_to_le_bytes((*brightness)) =~= spec_payload_bytes(self@));
                }
            },
            Message::GetHevCycle => {
                proof {
                    assert(buffer@ =~= spec_splice(
                        old(buffer)@,
                        offset as int,
                        spec_payload_bytes(self@),
                    ));
                }
            },
            Message::SetHevCycle { duration_s } => {
                encode_set_hev_cycle(buffer, offset, *duration_s);
                proof {
                    assert(spec_u32_to_le_bytes((*duration_s)) =~= spec_payload_bytes(self@));
                }
            },
            Message::GetHevCycleConfiguration => {
                proof {
                    assert(buffer@ =~= spec_splice(
                        old(buffer)@,
                        offset as int,
                        spec_payload_bytes(self@),
                    ));
                }
            },
            Message::SetHevCycleConfiguration { indication, duration_s } => {
                encode_set_hev_cycle_configuration(buffer, offset, *indication, *duration_s);
                proof {
                    assert(seq![(*indication)] + spec_u32_to_le_bytes((*duration_s)) =~= spec_payload_bytes(self@));
                }
            },
            Message::GetLastHevCycleResult => {
                proof {
                    assert(buffer@ =~= spec_splice(
                        old(buffer)@,
                        offset as int,
                        spec_payload_bytes(self@),
                    ));
                }
            },
            Message::SetAccessPoint { interface, ssid, password, protocol } => {
                encode_set_access_point(buffer, offset, *interface, ssid, password, *protocol);
                proof {
                    assert(seq![(*interface)] + spec_text_bytes(ssid@, 32) + spec_text_bytes(password@, 64) + seq![(*protocol)] =~= spec_payload_bytes(self@));
                }
            },
        }
        Ok(size)
    }

    /// The packet number bound to this message's variant.
    fn packet_number(&self) -> (r: u16)
        ensures
            r == spec_packet_number(self@),
    {
        match self {
            Message::Service { .. } => 1,
            Message::StateService { .. } => 3,
            Message::GetMeshInfo { .. } => 12,
            Message::MeshInfo { .. } => 13,
            Message::HostFirmware { .. } => 15,
            Message::WifiInfo { .. } => 17,
            Message::WifiFirmware { .. } => 19,
            Message::Power { .. } => 22,
            Message::Label { .. } => 25,
            Message::Version { .. } => 33,
            Message::Info { .. } => 35,
            Message::Location { .. } => 50,
            Message::Group { .. } => 53,
            Message::EchoResponse { .. } => 59,
            Message::Unhandled { .. } => 223,
            Message::LightState { .. } => 107,
            Message::LightPower { .. } => 118,
            Message::Infrared { .. } => 121,
            Message::HevCycle { .. } => 144,
            Message::HevCycleConfig { .. } => 147,
            Message::LastHevCycleResult { .. } => 149,
            Message::GetService => 2,
            Message::GetHostFirmware => 14,
            Message::GetWifiInfo => 16,
            Message::GetWifiFirmware => 18,
            Message::GetPower => 20,
            Message::SetPower { .. } => 21,
            Message::GetLabel => 23,
            Message::SetLabel { .. } => 24,
            Message::GetVersion => 32,
            Message::GetInfo => 34,
            Message::SetReboot => 38,
            Message::GetLocation => 48,
            Message::SetLocation { .. } => 49,
            Message::GetGroup => 51,
            Message::SetGroup { .. } => 52,
            Message::EchoRequest { .. } => 58,
            Message::GetColor => 101,
            Message::SetColor { .. } => 102,
            Message::SetWaveform { .. } => 103,
            Message::GetLightPower => 116,
            Message::SetLightPower { .. } => 117,
            Message::SetWaveformOptional { .. } => 119,
            Message::GetInfrared => 120,
            Message::SetInfrared { .. } => 122,
            Message::GetHevCycle => 142,
            Message::SetHevCycle { .. } => 143,
            Message::GetHevCycleConfiguration => 145,
            Message::SetHevCycleConfiguration { .. } => 146,
            Message::GetLastHevCycleResult => 148,
            Message::SetAccessPoint { .. } => 305,
        }
    }

    /// The fixed byte size of this message's payload.
    fn size(&self) -> (r: usize)
        ensures
            r == spec_payload_size(self@),
    {
        match self {
            Message::Service { .. } => 5,
            Message::StateService { .. } => 5,
            Message::GetMeshInfo { .. } => 0,
            Message::MeshInfo { .. } => 14,
            Message::HostFirmware { .. } => 20,
            Message::WifiInfo { .. } => 14,
            Message::WifiFirmware { .. } => 20,
            Message::Power { .. } => 2,
            Message::Label { .. } => 32,
            Message::Version { .. } => 12,
            Message::Info { .. } => 24,
            Message::Location { .. } => 56,
            Message::Group { .. } => 56,
            Message::EchoResponse { .. } => 64,
            Message::Unhandled { .. } => 2,
            Message::LightState { .. } => 52,
            Message::LightPower { .. } => 2,
            Message::Infrared { .. } => 2,
            Message::HevCycle { .. } => 9,
            Message::HevCycleConfig { .. } => 5,
            Message::LastHevCycleResult { .. } => 1,
            Message::GetService => 0,
            Message::GetHostFirmware => 0,
            Message::GetWifiInfo => 0,
            Message::GetWifiFirmware => 0,
            Message::GetPower => 0,
            Message::SetPower { .. } => 2,
            Message::GetLabel => 0,
            Message::SetLabel { .. } => 32,
            Message::GetVersion => 0,
            Message::GetInfo => 0,
            Message::SetReboot => 0,
            Message::GetLocation => 0,
            Message::SetLocation { .. } => 56,
            Message::GetGroup => 0,
            Message::SetGroup { .. } => 56,
            Message::EchoRequest { .. } => 64,
            Message::GetColor => 0,
            Message::SetColor { .. } => 13,
            Message::SetWaveform { .. } => 21,
            Message::GetLightPower => 0,
            Message::SetLightPower { .. } => 6,
            Message::SetWaveformOptional { .. } => 25,
            Message::GetInfrared => 0,
            Message::SetInfrared { .. } => 2,
            Message::GetHevCycle => 0,
            Message::SetHevCycle { .. } => 4,
            Message::GetHevCycleConfiguration => 0,
            Message::SetHevCycleConfiguration { .. } => 5,
            Message::GetLastHevCycleResult => 0,
            Message::SetAccessPoint { .. } => 98,
        }
    }
}

} // verus!
