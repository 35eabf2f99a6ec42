//! The closed set of protocol messages: one variant per supported packet
//! type, each with a fixed field layout.
//!
//! Fields declared as 32-bit floats by the protocol (`signal`, `cycles`) are
//! carried as their IEEE-754 bit patterns in a `u32`; the wire image is the
//! same four little-endian bytes either way.  Text fields are fixed-width,
//! zero-padded UTF-8: 32 bytes for labels and network names, 64 bytes for a
//! network password.
use vstd::prelude::*;

use crate::error::LifxDeserializationError;
use crate::error::LifxSerializationError;
use crate::wire::spec_text_fits;

verus! {

/// A protocol message, bound one-to-one to its packet number.
#[derive(Debug, Clone, PartialEq)]
pub enum Message {
    Service {
        service: u8,
        port: u32,
    },
    StateService {
        service: u8,
        port: u32,
    },
    GetMeshInfo {},
    MeshInfo {
        signal: u32,
        tx: u32,
        rx: u32,
        mcu_temperature: u16,
    },
    HostFirmware {
        build: u64,
        reserved_6: [u8; 8],
        version_minor: u16,
        version_major: u16,
    },
    WifiInfo {
        signal: u32,
        tx: u32,
        rx: u32,
        mcu_temperature: u16,
    },
    WifiFirmware {
        build: u64,
        reserved_6: [u8; 8],
        version_minor: u16,
        version_major: u16,
    },
    Power {
        level: u16,
    },
    Label {
        label: String,
    },
    Version {
        vendor: u32,
        product: u32,
        reserved_6: u32,
    },
    Info {
        time: u64,
        uptime: u64,
        downtime: u64,
    },
    Location {
        location: [u8; 16],
        label: String,
        updated_at: u64,
    },
    Group {
        group: [u8; 16],
        label: String,
        updated_at: u64,
    },
    EchoResponse {
        echoing: [u8; 64],
    },
    Unhandled {
        unhandled_type: u16,
    },
    LightState {
        hue: u16,
        saturation: u16,
        brightness: u16,
        kelvin: u16,
        reserved_6: [u8; 2],
        power: u16,
        label: String,
        reserved_7: [u8; 8],
    },
    LightPower {
        level: u16,
    },
    Infrared {
        brightness: u16,
    },
    HevCycle {
        duration_s: u32,
        remaining_s: u32,
        last_power: u8,
    },
    HevCycleConfig {
        indication: u8,
        duration_s: u32,
    },
    LastHevCycleResult {
        result: u8,
    },
    GetService,
    GetHostFirmware,
    GetWifiInfo,
    GetWifiFirmware,
    GetPower,
    SetPower {
        level: u16,
    },
    GetLabel,
    SetLabel {
        label: String,
    },
    GetVersion,
    GetInfo,
    SetReboot,
    GetLocation,
    SetLocation {
        location: [u8; 16],
        label: String,
        updated_at: u64,
    },
    GetGroup,
    SetGroup {
        group: [u8; 16],
        label: String,
        updated_at: u64,
    },
    EchoRequest {
        echoing: [u8; 64],
    },
    GetColor,
    SetColor {
        reserved_6: u8,
        hue: u16,
        saturation: u16,
        brightness: u16,
        kelvin: u16,
        duration_ms: u32,
    },
    SetWaveform {
        reserved_6: u8,
        transient: u8,
        hue: u16,
        saturation: u16,
        brightness: u16,
        kelvin: u16,
        period_ms: u32,
        cycles: u32,
        skew_ratio: i16,
        waveform: u8,
    },
    GetLightPower,
    SetLightPower {
        level: u16,
        duration_ms: u32,
    },
    SetWaveformOptional {
        reserved_6: u8,
        transient: u8,
        hue: u16,
        saturation: u16,
        brightness: u16,
        kelvin: u16,
        period_ms: u32,
        cycles: u32,
        skew_ratio: i16,
        waveform: u8,
        set_hue: u8,
        set_saturation: u8,
        set_brightness: u8,
        set_kelvin: u8,
    },
    GetInfrared,
    SetInfrared {
        brightness: u16,
    },
    GetHevCycle,
    SetHevCycle {
        duration_s: u32,
    },
    GetHevCycleConfiguration,
    SetHevCycleConfiguration {
        indication: u8,
        duration_s: u32,
    },
    GetLastHevCycleResult,
    SetAccessPoint {
        interface: u8,
        ssid: String,
        password: String,
        protocol: u8,
    },
}

/// The mathematical image of a [`Message`]: byte arrays as sequences of
/// bytes, text as sequences of characters.  Contracts and proofs speak of
/// this model through [`Message::view`].
#[verifier::ext_equal]
pub enum MessageModel {
    Service {
        service: u8,
        port: u32,
    },
    StateService {
        service: u8,
        port: u32,
    },
    GetMeshInfo {},
    MeshInfo {
        signal: u32,
        tx: u32,
        rx: u32,
        mcu_temperature: u16,
    },
    HostFirmware {
        build: u64,
        reserved_6: Seq<u8>,
        version_minor: u16,
        version_major: u16,
    },
    WifiInfo {
        signal: u32,
        tx: u32,
        rx: u32,
        mcu_temperature: u16,
    },
    WifiFirmware {
        build: u64,
        reserved_6: Seq<u8>,
        version_minor: u16,
        version_major: u16,
    },
    Power {
        level: u16,
    },
    Label {
        label: Seq<char>,
    },
    Version {
        vendor: u32,
        product: u32,
        reserved_6: u32,
    },
    Info {
        time: u64,
        uptime: u64,
        downtime: u64,
    },
    Location {
        location: Seq<u8>,
        label: Seq<char>,
        updated_at: u64,
    },
    Group {
        group: Seq<u8>,
        label: Seq<char>,
        updated_at: u64,
    },
    EchoResponse {
        echoing: Seq<u8>,
    },
    Unhandled {
        unhandled_type: u16,
    },
    LightState {
        hue: u16,
        saturation: u16,
        brightness: u16,
        kelvin: u16,
        reserved_6: Seq<u8>,
        power: u16,
        label: Seq<char>,
        reserved_7: Seq<u8>,
    },
    LightPower {
        level: u16,
    },
    Infrared {
        brightness: u16,
    },
    HevCycle {
        duration_s: u32,
        remaining_s: u32,
        last_power: u8,
    },
    HevCycleConfig {
        indication: u8,
        duration_s: u32,
    },
    LastHevCycleResult {
        result: u8,
    },
    GetService,
    GetHostFirmware,
    GetWifiInfo,
    GetWifiFirmware,
    GetPower,
    SetPower {
        level: u16,
    },
    GetLabel,
    SetLabel {
        label: Seq<char>,
    },
    GetVersion,
    GetInfo,
    SetReboot,
    GetLocation,
    SetLocation {
        location: Seq<u8>,
        label: Seq<char>,
        updated_at: u64,
    },
    GetGroup,
    SetGroup {
        group: Seq<u8>,
        label: Seq<char>,
        updated_at: u64,
    },
    EchoRequest {
        echoing: Seq<u8>,
    },
    GetColor,
    SetColor {
        reserved_6: u8,
        hue: u16,
        saturation: u16,
        brightness: u16,
        kelvin: u16,
        duration_ms: u32,
    },
    SetWaveform {
        reserved_6: u8,
        transient: u8,
        hue: u16,
        saturation: u16,
        brightness: u16,
        kelvin: u16,
        period_ms: u32,
        cycles: u32,
        skew_ratio: i16,
        waveform: u8,
    },
    GetLightPower,
    SetLightPower {
        level: u16,
        duration_ms: u32,
    },
    SetWaveformOptional {
        reserved_6: u8,
        transient: u8,
        hue: u16,
        saturation: u16,
        brightness: u16,
        kelvin: u16,
        period_ms: u32,
        cycles: u32,
        skew_ratio: i16,
        waveform: u8,
        set_hue: u8,
        set_saturation: u8,
        set_brightness: u8,
        set_kelvin: u8,
    },
    GetInfrared,
    SetInfrared {
        brightness: u16,
    },
    GetHevCycle,
    SetHevCycle {
        duration_s: u32,
    },
    GetHevCycleConfiguration,
    SetHevCycleConfiguration {
        indication: u8,
        duration_s: u32,
    },
    GetLastHevCycleResult,
    SetAccessPoint {
        interface: u8,
        ssid: Seq<char>,
        password: Seq<char>,
        protocol: u8,
    },
}

impl View for Message {
    type V = MessageModel;

    open spec fn view(&self) -> MessageModel {
        match self {
            Message::Service { service, port } => MessageModel::Service { service: *service, port: *port },
            Message::StateService { service, port } => MessageModel::StateService { service: *service, port: *port },
            Message::GetMeshInfo {} => MessageModel::GetMeshInfo {},
            Message::MeshInfo { signal, tx, rx, mcu_temperature } => MessageModel::MeshInfo { signal: *signal, tx: *tx, rx: *rx, mcu_temperature: *mcu_temperature },
            Message::HostFirmware { build, reserved_6, version_minor, version_major } => MessageModel::HostFirmware { build: *build, reserved_6: reserved_6@, version_minor: *version_minor, version_major: *version_major },
            Message::WifiInfo { signal, tx, rx, mcu_temperature } => MessageModel::WifiInfo { signal: *signal, tx: *tx, rx: *rx, mcu_temperature: *mcu_temperature },
            Message::WifiFirmware { build, reserved_6, version_minor, version_major } => MessageModel::WifiFirmware { build: *build, reserved_6: reserved_6@, version_minor: *version_minor, version_major: *version_major },
            Message::Power { level } => MessageModel::Power { level: *level },
            Message::Label { label } => MessageModel::Label { label: label@ },
            Message::Version { vendor, product, reserved_6 } => MessageModel::Version { vendor: *vendor, product: *product, reserved_6: *reserved_6 },
            Message::Info { time, uptime, downtime } => MessageModel::Info { time: *time, uptime: *uptime, downtime: *downtime },
            Message::Location { location, label, updated_at } => MessageModel::Location { location: location@, label: label@, updated_at: *updated_at },
            Message::Group { group, label, updated_at } => MessageModel::Group { group: group@, label: label@, updated_at: *updated_at },
            Message::EchoResponse { echoing } => MessageModel::EchoResponse { echoing: echoing@ },
            Message::Unhandled { unhandled_type } => MessageModel::Unhandled { unhandled_type: *unhandled_type },
            Message::LightState { hue, saturation, brightness, kelvin, reserved_6, power, label, reserved_7 } => MessageModel::LightState { hue: *hue, saturation: *saturation, brightness: *brightness, kelvin: *kelvin, reserved_6: reserved_6@, power: *power, label: label@, reserved_7: reserved_7@ },
            Message::LightPower { level } => MessageModel::LightPower { level: *level },
            Message::Infrared { brightness } => MessageModel::Infrared { brightness: *brightness },
            Message::HevCycle { duration_s, remaining_s, last_power } => MessageModel::HevCycle { duration_s: *duration_s, remaining_s: *remaining_s, last_power: *last_power },
            Message::HevCycleConfig { indication, duration_s } => MessageModel::HevCycleConfig { indication: *indication, duration_s: *duration_s },
            Message::LastHevCycleResult { result } => MessageModel::LastHevCycleResult { result: *result },
            Message::GetService => MessageModel::GetService,
            Message::GetHostFirmware => MessageModel::GetHostFirmware,
            Message::GetWifiInfo => MessageModel::GetWifiInfo,
            Message::GetWifiFirmware => MessageModel::GetWifiFirmware,
            Message::GetPower => MessageModel::GetPower,
            Message::SetPower { level } => MessageModel::SetPower { level: *level },
            Message::GetLabel => MessageModel::GetLabel,
            Message::SetLabel { label } => MessageModel::SetLabel { label: label@ },
            Message::GetVersion => MessageModel::GetVersion,
            Message::GetInfo => MessageModel::GetInfo,
            Message::SetReboot => MessageModel::SetReboot,
            Message::GetLocation => MessageModel::GetLocation,
            Message::SetLocation { location, label, updated_at } => MessageModel::SetLocation { location: location@, label: label@, updated_at: *updated_at },
            Message::GetGroup => MessageModel::GetGroup,
            Message::SetGroup { group, label, updated_at } => MessageModel::SetGroup { group: group@, label: label@, updated_at: *updated_at },
            Message::EchoRequest { echoing } => MessageModel::EchoRequest { echoing: echoing@ },
            Message::GetColor => MessageModel::GetColor,
            Message::SetColor { reserved_6, hue, saturation, brightness, kelvin, duration_ms } => MessageModel::SetColor { reserved_6: *reserved_6, hue: *hue, saturation: *saturation, brightness: *brightness, kelvin: *kelvin, duration_ms: *duration_ms },
            Message::SetWaveform { reserved_6, transient, hue, saturation, brightness, kelvin, period_ms, cycles, skew_ratio, waveform } => MessageModel::SetWaveform { reserved_6: *reserved_6, transient: *transient, hue: *hue, saturation: *saturation, brightness: *brightness, kelvin: *kelvin, period_ms: *period_ms, cycles: *cycles, skew_ratio: *skew_ratio, waveform: *waveform },
            Message::GetLightPower => MessageModel::GetLightPower,
            Message::SetLightPower { level, duration_ms } => MessageModel::SetLightPower { level: *level, duration_ms: *duration_ms },
            Message::SetWaveformOptional { reserved_6, transient, hue, saturation, brightness, kelvin, period_ms, cycles, skew_ratio, waveform, set_hue, set_saturation, set_brightness, set_kelvin } => MessageModel::SetWaveformOptional { reserved_6: *reserved_6, transient: *transient, hue: *hue, saturation: *saturation, brightness: *brightness, kelvin: *kelvin, period_ms: *period_ms, cycles: *cycles, skew_ratio: *skew_ratio, waveform: *waveform, set_hue: *set_hue, set_saturation: *set_saturation, set_brightness: *set_brightness, set_kelvin: *set_kelvin },
            Message::GetInfrared => MessageModel::GetInfrared,
            Message::SetInfrared { brightness } => MessageModel::SetInfrared { brightness: *brightness },
            Message::GetHevCycle => MessageModel::GetHevCycle,
            Message::SetHevCycle { duration_s } => MessageModel::SetHevCycle { duration_s: *duration_s },
            Message::GetHevCycleConfiguration => MessageModel::GetHevCycleConfiguration,
            Message::SetHevCycleConfiguration { indication, duration_s } => MessageModel::SetHevCycleConfiguration { indication: *indication, duration_s: *duration_s },
            Message::GetLastHevCycleResult => MessageModel::GetLastHevCycleResult,
            Message::SetAccessPoint { interface, ssid, password, protocol } => MessageModel::SetAccessPoint { interface: *interface, ssid: ssid@, password: password@, protocol: *protocol },
        }
    }
}

/// The packet number bound to each message variant.
pub open spec fn spec_packet_number(m: MessageModel) -> u16 {
    match m {
        MessageModel::Service { .. } => 1u16,
        MessageModel::StateService { .. } => 3u16,
        MessageModel::GetMeshInfo { .. } => 12u16,
        MessageModel::MeshInfo { .. } => 13u16,
        MessageModel::HostFirmware { .. } => 15u16,
        MessageModel::WifiInfo { .. } => 17u16,
        MessageModel::WifiFirmware { .. } => 19u16,
        MessageModel::Power { .. } => 22u16,
        MessageModel::Label { .. } => 25u16,
        MessageModel::Version { .. } => 33u16,
        MessageModel::Info { .. } => 35u16,
        MessageModel::Location { .. } => 50u16,
        MessageModel::Group { .. } => 53u16,
        MessageModel::EchoResponse { .. } => 59u16,
        MessageModel::Unhandled { .. } => 223u16,
        MessageModel::LightState { .. } => 107u16,
        MessageModel::LightPower { .. } => 118u16,
        MessageModel::Infrared { .. } => 121u16,
        MessageModel::HevCycle { .. } => 144u16,
        MessageModel::HevCycleConfig { .. } => 147u16,
        MessageModel::LastHevCycleResult { .. } => 149u16,
        MessageModel::GetService => 2u16,
        MessageModel::GetHostFirmware => 14u16,
        MessageModel::GetWifiInfo => 16u16,
        MessageModel::GetWifiFirmware => 18u16,
        MessageModel::GetPower => 20u16,
        MessageModel::SetPower { .. } => 21u16,
        MessageModel::GetLabel => 23u16,
        MessageModel::SetLabel { .. } => 24u16,
        MessageModel::GetVersion => 32u16,
        MessageModel::GetInfo => 34u16,
        MessageModel::SetReboot => 38u16,
        MessageModel::GetLocation => 48u16,
        MessageModel::SetLocation { .. } => 49u16,
        MessageModel::GetGroup => 51u16,
        MessageModel::SetGroup { .. } => 52u16,
        MessageModel::EchoRequest { .. } => 58u16,
        MessageModel::GetColor => 101u16,
        MessageModel::SetColor { .. } => 102u16,
        MessageModel::SetWaveform { .. } => 103u16,
        MessageModel::GetLightPower => 116u16,
        MessageModel::SetLightPower { .. } => 117u16,
        MessageModel::SetWaveformOptional { .. } => 119u16,
        MessageModel::GetInfrared => 120u16,
        MessageModel::SetInfrared { .. } => 122u16,
        MessageModel::GetHevCycle => 142u16,
        MessageModel::SetHevCycle { .. } => 143u16,
        MessageModel::GetHevCycleConfiguration => 145u16,
        MessageModel::SetHevCycleConfiguration { .. } => 146u16,
        MessageModel::GetLastHevCycleResult => 148u16,
        MessageModel::SetAccessPoint { .. } => 305u16,
    }
}

/// The fixed payload size, in bytes, of each message variant: the sum of its
/// field widths.
pub open spec fn spec_payload_size(m: MessageModel) -> int {
    match m {
        MessageModel::Service { .. } => 5,
        MessageModel::StateService { .. } => 5,
        MessageModel::GetMeshInfo { .. } => 0,
        MessageModel::MeshInfo { .. } => 14,
        MessageModel::HostFirmware { .. } => 20,
        MessageModel::WifiInfo { .. } => 14,
        MessageModel::WifiFirmware { .. } => 20,
        MessageModel::Power { .. } => 2,
        MessageModel::Label { .. } => 32,
        MessageModel::Version { .. } => 12,
        MessageModel::Info { .. } => 24,
        MessageModel::Location { .. } => 56,
        MessageModel::Group { .. } => 56,
        MessageModel::EchoResponse { .. } => 64,
        MessageModel::Unhandled { .. } => 2,
        MessageModel::LightState { .. } => 52,
        MessageModel::LightPower { .. } => 2,
        MessageModel::Infrared { .. } => 2,
        MessageModel::HevCycle { .. } => 9,
        MessageModel::HevCycleConfig { .. } => 5,
        MessageModel::LastHevCycleResult { .. } => 1,
        MessageModel::GetService => 0,
        MessageModel::GetHostFirmware => 0,
        MessageModel::GetWifiInfo => 0,
        MessageModel::GetWifiFirmware => 0,
        MessageModel::GetPower => 0,
        MessageModel::SetPower { .. } => 2,
        MessageModel::GetLabel => 0,
        MessageModel::SetLabel { .. } => 32,
        MessageModel::GetVersion => 0,
        MessageModel::GetInfo => 0,
        MessageModel::SetReboot => 0,
        MessageModel::GetLocation => 0,
        MessageModel::SetLocation { .. } => 56,
        MessageModel::GetGroup => 0,
        MessageModel::SetGroup { .. } => 56,
        MessageModel::EchoRequest { .. } => 64,
        MessageModel::GetColor => 0,
        MessageModel::SetColor { .. } => 13,
        MessageModel::SetWaveform { .. } => 21,
        MessageModel::GetLightPower => 0,
        MessageModel::SetLightPower { .. } => 6,
        MessageModel::SetWaveformOptional { .. } => 25,
        MessageModel::GetInfrared => 0,
        MessageModel::SetInfrared { .. } => 2,
        MessageModel::GetHevCycle => 0,
        MessageModel::SetHevCycle { .. } => 4,
        MessageModel::GetHevCycleConfiguration => 0,
        MessageModel::SetHevCycleConfiguration { .. } => 5,
        MessageModel::GetLastHevCycleResult => 0,
        MessageModel::SetAccessPoint { .. } => 98,
    }
}

/// Whether a packet number selects a supported message variant.
pub open spec fn spec_known_packet_number(pt: u16) -> bool {
    ||| pt == 1
    ||| pt == 3
    ||| pt == 12
    ||| pt == 13
    ||| pt == 15
    ||| pt == 17
    ||| pt == 19
    ||| pt == 22
    ||| pt == 25
    ||| pt == 33
    ||| pt == 35
    ||| pt == 50
    ||| pt == 53
    ||| pt == 59
    ||| pt == 223
    ||| pt == 107
    ||| pt == 118
    ||| pt == 121
    ||| pt == 144
    ||| pt == 147
    ||| pt == 149
    ||| pt == 2
    ||| pt == 14
    ||| pt == 16
    ||| pt == 18
    ||| pt == 20
    ||| pt == 21
    ||| pt == 23
    ||| pt == 24
    ||| pt == 32
    ||| pt == 34
    ||| pt == 38
    ||| pt == 48
    ||| pt == 49
    ||| pt == 51
    ||| pt == 52
    ||| pt == 58
    ||| pt == 101
    ||| pt == 102
    ||| pt == 103
    ||| pt == 116
    ||| pt == 117
    ||| pt == 119
    ||| pt == 120
    ||| pt == 122
    ||| pt == 142
    ||| pt == 143
    ||| pt == 145
    ||| pt == 146
    ||| pt == 148
    ||| pt == 305
}

/// The payload size that a known packet number requires.
pub open spec fn spec_packet_payload_size(pt: u16) -> int
    recommends
        spec_known_packet_number(pt),
{
    match pt {
        1u16 => 5,
        3u16 => 5,
        12u16 => 0,
        13u16 => 14,
        15u16 => 20,
        17u16 => 14,
        19u16 => 20,
        22u16 => 2,
        25u16 => 32,
        33u16 => 12,
        35u16 => 24,
        50u16 => 56,
        53u16 => 56,
        59u16 => 64,
        223u16 => 2,
        107u16 => 52,
        118u16 => 2,
        121u16 => 2,
        144u16 => 9,
        147u16 => 5,
        149u16 => 1,
        2u16 => 0,
        14u16 => 0,
        16u16 => 0,
        18u16 => 0,
        20u16 => 0,
        21u16 => 2,
        23u16 => 0,
        24u16 => 32,
        32u16 => 0,
        34u16 => 0,
        38u16 => 0,
        48u16 => 0,
        49u16 => 56,
        51u16 => 0,
        52u16 => 56,
        58u16 => 64,
        101u16 => 0,
        102u16 => 13,
        103u16 => 21,
        116u16 => 0,
        117u16 => 6,
        119u16 => 25,
        120u16 => 0,
        122u16 => 2,
        142u16 => 0,
        143u16 => 4,
        145u16 => 0,
        146u16 => 5,
        148u16 => 0,
        305u16 => 98,
        _ => 0,
    }
}

/// Every payload fits comfortably in a datagram: no variant is larger than
/// 98 bytes.
pub proof fn lemma_payload_size_bounds(m: MessageModel)
    ensures
        0 <= spec_payload_size(m) <= 98,
{
    match m {
        MessageModel::Service { .. } => {},
        MessageModel::StateService { .. } => {},
        MessageModel::GetMeshInfo { .. } => {},
        MessageModel::MeshInfo { .. } => {},
        MessageModel::HostFirmware { .. } => {},
        MessageModel::WifiInfo { .. } => {},
        MessageModel::WifiFirmware { .. } => {},
        MessageModel::Power { .. } => {},
        MessageModel::Label { .. } => {},
        MessageModel::Version { .. } => {},
        MessageModel::Info { .. } => {},
        MessageModel::Location { .. } => {},
        MessageModel::Group { .. } => {},
        MessageModel::EchoResponse { .. } => {},
        MessageModel::Unhandled { .. } => {},
        MessageModel::LightState { .. } => {},
        MessageModel::LightPower { .. } => {},
        MessageModel::Infrared { .. } => {},
        MessageModel::HevCycle { .. } => {},
        MessageModel::HevCycleConfig { .. } => {},
        MessageModel::LastHevCycleResult { .. } => {},
        MessageModel::GetService => {},
        MessageModel::GetHostFirmware => {},
        MessageModel::GetWifiInfo => {},
        MessageModel::GetWifiFirmware => {},
        MessageModel::GetPower => {},
        MessageModel::SetPower { .. } => {},
        MessageModel::GetLabel => {},
        MessageModel::SetLabel { .. } => {},
        MessageModel::GetVersion => {},
        MessageModel::GetInfo => {},
        MessageModel::SetReboot => {},
        MessageModel::GetLocation => {},
        MessageModel::SetLocation { .. } => {},
        MessageModel::GetGroup => {},
        MessageModel::SetGroup { .. } => {},
        MessageModel::EchoRequest { .. } => {},
        MessageModel::GetColor => {},
        MessageModel::SetColor { .. } => {},
        MessageModel::SetWaveform { .. } => {},
        MessageModel::GetLightPower => {},
        MessageModel::SetLightPower { .. } => {},
        MessageModel::SetWaveformOptional { .. } => {},
        MessageModel::GetInfrared => {},
        MessageModel::SetInfrared { .. } => {},
        MessageModel::GetHevCycle => {},
        MessageModel::SetHevCycle { .. } => {},
        MessageModel::GetHevCycleConfiguration => {},
        MessageModel::SetHevCycleConfiguration { .. } => {},
        MessageModel::GetLastHevCycleResult => {},
        MessageModel::SetAccessPoint { .. } => {},
    }
}

/// Structural well-formedness of a message model: every byte-array field
/// has exactly its declared width.  The view of every [`Message`] is
/// well-formed.
pub open spec fn spec_msg_wf(m: MessageModel) -> bool {
    match m {
        MessageModel::HostFirmware { reserved_6, .. } => reserved_6.len() == 8,
        MessageModel::WifiFirmware { reserved_6, .. } => reserved_6.len() == 8,
        MessageModel::Location { location, .. } => location.len() == 16,
        MessageModel::Group { group, .. } => group.len() == 16,
        MessageModel::EchoResponse { echoing } => echoing.len() == 64,
        MessageModel::LightState { reserved_6, reserved_7, .. } => reserved_6.len() == 2 && reserved_7.len() == 8,
        MessageModel::SetLocation { location, .. } => location.len() == 16,
        MessageModel::SetGroup { group, .. } => group.len() == 16,
        MessageModel::EchoRequest { echoing } => echoing.len() == 64,
        _ => true,
    }
}

/// The view of a real message is always well-formed.
pub proof fn lemma_view_wf(m: &Message)
    ensures
        spec_msg_wf(m@),
{
    match m {
        Message::Service { .. } => {},
        Message::StateService { .. } => {},
        Message::GetMeshInfo { .. } => {},
        Message::MeshInfo { .. } => {},
        Message::HostFirmware { .. } => {},
        Message::WifiInfo { .. } => {},
        Message::WifiFirmware { .. } => {},
        Message::Power { .. } => {},
        Message::Label { .. } => {},
        Message::Version { .. } => {},
        Message::Info { .. } => {},
        Message::Location { .. } => {},
        Message::Group { .. } => {},
        Message::EchoResponse { .. } => {},
        Message::Unhandled { .. } => {},
        Message::LightState { .. } => {},
        Message::LightPower { .. } => {},
        Message::Infrared { .. } => {},
        Message::HevCycle { .. } => {},
        Message::HevCycleConfig { .. } => {},
        Message::LastHevCycleResult { .. } => {},
        Message::GetService => {},
        Message::GetHostFirmware => {},
        Message::GetWifiInfo => {},
        Message::GetWifiFirmware => {},
        Message::GetPower => {},
        Message::SetPower { .. } => {},
        Message::GetLabel => {},
        Message::SetLabel { .. } => {},
        Message::GetVersion => {},
        Message::GetInfo => {},
        Message::SetReboot => {},
        Message::GetLocation => {},
        Message::SetLocation { .. } => {},
        Message::GetGroup => {},
        Message::SetGroup { .. } => {},
        Message::EchoRequest { .. } => {},
        Message::GetColor => {},
        Message::SetColor { .. } => {},
        Message::SetWaveform { .. } => {},
        Message::GetLightPower => {},
        Message::SetLightPower { .. } => {},
        Message::SetWaveformOptional { .. } => {},
        Message::GetInfrared => {},
        Message::SetInfrared { .. } => {},
        Message::GetHevCycle => {},
        Message::SetHevCycle { .. } => {},
        Message::GetHevCycleConfiguration => {},
        Message::SetHevCycleConfiguration { .. } => {},
        Message::GetLastHevCycleResult => {},
        Message::SetAccessPoint { .. } => {},
    }
}

/// Whether every text field of `m` fits its fixed field width; messages
/// whose text does not fit are rejected on encode, never truncated.
pub open spec fn spec_msg_fits(m: MessageModel) -> bool {
    match m {
        MessageModel::Label { label } => spec_text_fits(label, 32),
        MessageModel::Location { label, .. } => spec_text_fits(label, 32),
        MessageModel::Group { label, .. } => spec_text_fits(label, 32),
        MessageModel::LightState { label, .. } => spec_text_fits(label, 32),
        MessageModel::SetLabel { label } => spec_text_fits(label, 32),
        MessageModel::SetLocation { label, .. } => spec_text_fits(label, 32),
        MessageModel::SetGroup { label, .. } => spec_text_fits(label, 32),
        MessageModel::SetAccessPoint { ssid, password, .. } => spec_text_fits(ssid, 32) && spec_text_fits(password, 64),
        _ => true,
    }
}

/// What every payload implements: sizing, its packet number, and the two
/// directions of the codec.
pub trait LifxPayload: Sized {
    /// Decode the payload selected by `packet_number` from the start of
    /// `bytes`.
    fn from_bytes(packet_number: u16, bytes: &[u8]) -> Result<Self, LifxDeserializationError>;

    /// Encode the payload into `buffer` at `offset`, returning the number of
    /// bytes written.
    fn to_bytes(&self, buffer: &mut Vec<u8>, offset: usize) -> Result<usize, LifxSerializationError>;

    /// The packet number bound to this payload's variant.
    fn packet_number(&self) -> u16;

    /// The fixed byte size of this payload's variant.
    fn size(&self) -> usize;
}

impl Message {
    /// Whether every text field of this message fits its fixed field width.
    pub fn labels_fit(&self) -> (r: bool)
        ensures
            r == spec_msg_fits(self@),
    {
        match self {
            Message::Label { label } => label.as_str().as_bytes().len() <= 32,
            Message::Location { label, .. } => label.as_str().as_bytes().len() <= 32,
            Message::Group { label, .. } => label.as_str().as_bytes().len() <= 32,
            Message::LightState { label, .. } => label.as_str().as_bytes().len() <= 32,
            Message::SetLabel { label } => label.as_str().as_bytes().len() <= 32,
            Message::SetLocation { label, .. } => label.as_str().as_bytes().len() <= 32,
            Message::SetGroup { label, .. } => label.as_str().as_bytes().len() <= 32,
            Message::SetAccessPoint { ssid, password, .. } => ssid.as_str().as_bytes().len() <= 32 && password.as_str().as_bytes().len() <= 64,
            _ => true,
        }
    }
}

/// Coarse signal-strength bands derived from a received signal strength
/// indicator (RSSI) in decibels.
#[derive(Debug, Clone, Copy, PartialEq, Eq, Structural)]
pub enum WifiSignalQuality {
    High,
    Average,
    Low,
    VeryLow,
    NoSignal,
}

/// The band that a given RSSI value falls in.  Negative values are decibel
/// readings (closer to zero is stronger); small positive values are raw
/// quality steps; 200 means no signal at all.
pub open spec fn spec_wifi_signal_quality(rssi: int) -> WifiSignalQuality {
    if rssi < 0 || rssi == 200 {
        if rssi == 200 {
            WifiSignalQuality::NoSignal
        } else if rssi <= -80 {
            WifiSignalQuality::VeryLow
        } else if rssi <= -70 {
            WifiSignalQuality::Low
        } else if rssi <= -60 {
            WifiSignalQuality::Average
        } else {
            WifiSignalQuality::High
        }
    } else if rssi == 4 || rssi == 5 || rssi == 6 {
        WifiSignalQuality::VeryLow
    } else if 7 <= rssi && rssi <= 11 {
        WifiSignalQuality::Low
    } else if 12 <= rssi && rssi <= 16 {
        WifiSignalQuality::Average
    } else if rssi > 16 {
        WifiSignalQuality::High
    } else {
        WifiSignalQuality::NoSignal
    }
}

/// Classify a rounded RSSI value into its signal-quality band.
pub fn wifi_signal_quality_from_rssi(rssi: i32) -> (r: WifiSignalQuality)
    ensures
        r == spec_wifi_signal_quality(rssi as int),
{
    if rssi < 0 || rssi == 200 {
        if rssi == 200 {
            WifiSignalQuality::NoSignal
        } else if rssi <= -80 {
            WifiSignalQuality::VeryLow
        } else if rssi <= -70 {
            WifiSignalQuality::Low
        } else if rssi <= -60 {
            WifiSignalQuality::Average
        } else {
            WifiSignalQuality::High
        }
    } else if rssi == 4 || rssi == 5 || rssi == 6 {
        WifiSignalQuality::VeryLow
    } else if rssi >= 7 && rssi <= 11 {
        WifiSignalQuality::Low
    } else if rssi >= 12 && rssi <= 16 {
        WifiSignalQuality::Average
    } else if rssi > 16 {
        WifiSignalQuality::High
    } else {
        WifiSignalQuality::NoSignal
    }
}

} // verus!
