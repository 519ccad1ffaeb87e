use vstd::prelude::*;

verus! {

/// LoRa region code. Variants are listed in wire order: the first is 0.
#[derive(Copy, Clone, Debug, PartialEq, Eq, Structural)]
pub enum RegionCode {
    Unset,
    Us,
    Eu433,
    Eu868,
    Cn,
    Jp,
    Anz,
    Kr,
    Tw,
    Ru,
    In,
    Nz865,
    Th,
    Lora24,
    Ua433,
    Ua868,
    My433,
    My919,
    Sg923,
    Ph433,
    Ph868,
    Ph915,
    Anz433,
    Kz433,
    Kz863,
    Np865,
    Br902,
}

impl RegionCode {
    /// The number this value has on the wire.
    pub open spec fn wire(self) -> i32 {
        match self {
            RegionCode::Unset => 0,
            RegionCode::Us => 1,
            RegionCode::Eu433 => 2,
            RegionCode::Eu868 => 3,
            RegionCode::Cn => 4,
            RegionCode::Jp => 5,
            RegionCode::Anz => 6,
            RegionCode::Kr => 7,
            RegionCode::Tw => 8,
            RegionCode::Ru => 9,
            RegionCode::In => 10,
            RegionCode::Nz865 => 11,
            RegionCode::Th => 12,
            RegionCode::Lora24 => 13,
            RegionCode::Ua433 => 14,
            RegionCode::Ua868 => 15,
            RegionCode::My433 => 16,
            RegionCode::My919 => 17,
            RegionCode::Sg923 => 18,
            RegionCode::Ph433 => 19,
            RegionCode::Ph868 => 20,
            RegionCode::Ph915 => 21,
            RegionCode::Anz433 => 22,
            RegionCode::Kz433 => 23,
            RegionCode::Kz863 => 24,
            RegionCode::Np865 => 25,
            RegionCode::Br902 => 26,
        }
    }

    /// The value for wire number `v`; an unknown number reads as the
    /// zero value, as protobuf enum fields do.
    pub open spec fn of_wire(v: i32) -> Self {
        match v {
            1 => RegionCode::Us,
            2 => RegionCode::Eu433,
            3 => RegionCode::Eu868,
            4 => RegionCode::Cn,
            5 => RegionCode::Jp,
            6 => RegionCode::Anz,
            7 => RegionCode::Kr,
            8 => RegionCode::Tw,
            9 => RegionCode::Ru,
            10 => RegionCode::In,
            11 => RegionCode::Nz865,
            12 => RegionCode::Th,
            13 => RegionCode::Lora24,
            14 => RegionCode::Ua433,
            15 => RegionCode::Ua868,
            16 => RegionCode::My433,
            17 => RegionCode::My919,
            18 => RegionCode::Sg923,
            19 => RegionCode::Ph433,
            20 => RegionCode::Ph868,
            21 => RegionCode::Ph915,
            22 => RegionCode::Anz433,
            23 => RegionCode::Kz433,
            24 => RegionCode::Kz863,
            25 => RegionCode::Np865,
            26 => RegionCode::Br902,
            _ => RegionCode::Unset,
        }
    }

    /// The value for wire number `v`; an unknown number reads as the
    /// zero value, as protobuf enum fields do.
    pub fn from_wire(v: i32) -> (r: Self)
        ensures
            r == Self::of_wire(v),
            0 <= v < 27 ==> r.wire() == v,
            !(0 <= v < 27) ==> r == RegionCode::Unset,
    {
        match v {
            1 => RegionCode::Us,
            2 => RegionCode::Eu433,
            3 => RegionCode::Eu868,
            4 => RegionCode::Cn,
            5 => RegionCode::Jp,
            6 => RegionCode::Anz,
            7 => RegionCode::Kr,
            8 => RegionCode::Tw,
            9 => RegionCode::Ru,
            10 => RegionCode::In,
            11 => RegionCode::Nz865,
            12 => RegionCode::Th,
            13 => RegionCode::Lora24,
            14 => RegionCode::Ua433,
            15 => RegionCode::Ua868,
            16 => RegionCode::My433,
            17 => RegionCode::My919,
            18 => RegionCode::Sg923,
            19 => RegionCode::Ph433,
            20 => RegionCode::Ph868,
            21 => RegionCode::Ph915,
            22 => RegionCode::Anz433,
            23 => RegionCode::Kz433,
            24 => RegionCode::Kz863,
            25 => RegionCode::Np865,
            26 => RegionCode::Br902,
            _ => RegionCode::Unset,
        }
    }

    /// The number this value has on the wire.
    pub fn to_wire(self) -> (r: i32)
        ensures
            r == self.wire(),
    {
        match self {
            RegionCode::Unset => 0,
            RegionCode::Us => 1,
            RegionCode::Eu433 => 2,
            RegionCode::Eu868 => 3,
            RegionCode::Cn => 4,
            RegionCode::Jp => 5,
            RegionCode::Anz => 6,
            RegionCode::Kr => 7,
            RegionCode::Tw => 8,
            RegionCode::Ru => 9,
            RegionCode::In => 10,
            RegionCode::Nz865 => 11,
            RegionCode::Th => 12,
            RegionCode::Lora24 => 13,
            RegionCode::Ua433 => 14,
            RegionCode::Ua868 => 15,
            RegionCode::My433 => 16,
            RegionCode::My919 => 17,
            RegionCode::Sg923 => 18,
            RegionCode::Ph433 => 19,
            RegionCode::Ph868 => 20,
            RegionCode::Ph915 => 21,
            RegionCode::Anz433 => 22,
            RegionCode::Kz433 => 23,
            RegionCode::Kz863 => 24,
            RegionCode::Np865 => 25,
            RegionCode::Br902 => 26,
        }
    }
}

/// LoRa modem preset. Variants are listed in wire order: the first is 0.
#[derive(Copy, Clone, Debug, PartialEq, Eq, Structural)]
pub enum ModemPreset {
    LongFast,
    LongSlow,
    VeryLongSlow,
    MediumSlow,
    MediumFast,
    ShortSlow,
    ShortFast,
    LongModerate,
    ShortTurbo,
    LongTurbo,
}

impl ModemPreset {
    /// The number this value has on the wire.
    pub open spec fn wire(self) -> i32 {
        match self {
            ModemPreset::LongFast => 0,
            ModemPreset::LongSlow => 1,
            ModemPreset::VeryLongSlow => 2,
            ModemPreset::MediumSlow => 3,
            ModemPreset::MediumFast => 4,
            ModemPreset::ShortSlow => 5,
            ModemPreset::ShortFast => 6,
            ModemPreset::LongModerate => 7,
            ModemPreset::ShortTurbo => 8,
            ModemPreset::LongTurbo => 9,
        }
    }

    /// The value for wire number `v`; an unknown number reads as the
    /// zero value, as protobuf enum fields do.
    pub open spec fn of_wire(v: i32) -> Self {
        match v {
            1 => ModemPreset::LongSlow,
            2 => ModemPreset::VeryLongSlow,
            3 => ModemPreset::MediumSlow,
            4 => ModemPreset::MediumFast,
            5 => ModemPreset::ShortSlow,
            6 => ModemPreset::ShortFast,
            7 => ModemPreset::LongModerate,
            8 => ModemPreset::ShortTurbo,
            9 => ModemPreset::LongTurbo,
            _ => ModemPreset::LongFast,
        }
    }

    /// The value for wire number `v`; an unknown number reads as the
    /// zero value, as protobuf enum fields do.
    pub fn from_wire(v: i32) -> (r: Self)
        ensures
            r == Self::of_wire(v),
            0 <= v < 10 ==> r.wire() == v,
            !(0 <= v < 10) ==> r == ModemPreset::LongFast,
    {
        match v {
            1 => ModemPreset::LongSlow,
            2 => ModemPreset::VeryLongSlow,
            3 => ModemPreset::MediumSlow,
            4 => ModemPreset::MediumFast,
            5 => ModemPreset::ShortSlow,
            6 => ModemPreset::ShortFast,
            7 => ModemPreset::LongModerate,
            8 => ModemPreset::ShortTurbo,
            9 => ModemPreset::LongTurbo,
            _ => ModemPreset::LongFast,
        }
    }

    /// The number this value has on the wire.
    pub fn to_wire(self) -> (r: i32)
        ensures
            r == self.wire(),
    {
        match self {
            ModemPreset::LongFast => 0,
            ModemPreset::LongSlow => 1,
            ModemPreset::VeryLongSlow => 2,
            ModemPreset::MediumSlow => 3,
            ModemPreset::MediumFast => 4,
            ModemPreset::ShortSlow => 5,
            ModemPreset::ShortFast => 6,
            ModemPreset::LongModerate => 7,
            ModemPreset::ShortTurbo => 8,
            ModemPreset::LongTurbo => 9,
        }
    }
}

/// Role a device plays in the mesh. Variants are listed in wire order: the first is 0.
#[derive(Copy, Clone, Debug, PartialEq, Eq, Structural)]
pub enum DeviceRole {
    Client,
    ClientMute,
    Router,
    RouterClient,
    Repeater,
    Tracker,
    Sensor,
    Tak,
    ClientHidden,
    LostAndFound,
    TakTracker,
    RouterLate,
    ClientBase,
}

impl DeviceRole {
    /// The number this value has on the wire.
    pub open spec fn wire(self) -> i32 {
        match self {
            DeviceRole::Client => 0,
            DeviceRole::ClientMute => 1,
            DeviceRole::Router => 2,
            DeviceRole::RouterClient => 3,
            DeviceRole::Repeater => 4,
            DeviceRole::Tracker => 5,
            DeviceRole::Sensor => 6,
            DeviceRole::Tak => 7,
            DeviceRole::ClientHidden => 8,
            DeviceRole::LostAndFound => 9,
            DeviceRole::TakTracker => 10,
            DeviceRole::RouterLate => 11,
            DeviceRole::ClientBase => 12,
        }
    }

    /// The value for wire number `v`; an unknown number reads as the
    /// zero value, as protobuf enum fields do.
    pub open spec fn of_wire(v: i32) -> Self {
        match v {
            1 => DeviceRole::ClientMute,
            2 => DeviceRole::Router,
            3 => DeviceRole::RouterClient,
            4 => DeviceRole::Repeater,
            5 => DeviceRole::Tracker,
            6 => DeviceRole::Sensor,
            7 => DeviceRole::Tak,
            8 => DeviceRole::ClientHidden,
            9 => DeviceRole::LostAndFound,
            10 => DeviceRole::TakTracker,
            11 => DeviceRole::RouterLate,
            12 => DeviceRole::ClientBase,
            _ => DeviceRole::Client,
        }
    }

    /// The value for wire number `v`; an unknown number reads as the
    /// zero value, as protobuf enum fields do.
    pub fn from_wire(v: i32) -> (r: Self)
        ensures
            r == Self::of_wire(v),
            0 <= v < 13 ==> r.wire() == v,
            !(0 <= v < 13) ==> r == DeviceRole::Client,
    {
        match v {
            1 => DeviceRole::ClientMute,
            2 => DeviceRole::Router,
            3 => DeviceRole::RouterClient,
            4 => DeviceRole::Repeater,
            5 => DeviceRole::Tracker,
            6 => DeviceRole::Sensor,
            7 => DeviceRole::Tak,
            8 => DeviceRole::ClientHidden,
            9 => DeviceRole::LostAndFound,
            10 => DeviceRole::TakTracker,
            11 => DeviceRole::RouterLate,
            12 => DeviceRole::ClientBase,
            _ => DeviceRole::Client,
        }
    }

    /// The number this value has on the wire.
    pub fn to_wire(self) -> (r: i32)
        ensures
            r == self.wire(),
    {
        match self {
            DeviceRole::Client => 0,
            DeviceRole::ClientMute => 1,
            DeviceRole::Router => 2,
            DeviceRole::RouterClient => 3,
            DeviceRole::Repeater => 4,
            DeviceRole::Tracker => 5,
            DeviceRole::Sensor => 6,
            DeviceRole::Tak => 7,
            DeviceRole::ClientHidden => 8,
            DeviceRole::LostAndFound => 9,
            DeviceRole::TakTracker => 10,
            DeviceRole::RouterLate => 11,
            DeviceRole::ClientBase => 12,
        }
    }
}

/// Which packets a device rebroadcasts. Variants are listed in wire order: the first is 0.
#[derive(Copy, Clone, Debug, PartialEq, Eq, Structural)]
pub enum RebroadcastMode {
    All,
    AllSkipDecoding,
    LocalOnly,
    KnownOnly,
    NoRebroadcast,
    CorePortnumsOnly,
}

impl RebroadcastMode {
    /// The number this value has on the wire.
    pub open spec fn wire(self) -> i32 {
        match self {
            RebroadcastMode::All => 0,
            RebroadcastMode::AllSkipDecoding => 1,
            RebroadcastMode::LocalOnly => 2,
            RebroadcastMode::KnownOnly => 3,
            RebroadcastMode::NoRebroadcast => 4,
            RebroadcastMode::CorePortnumsOnly => 5,
        }
    }

    /// The value for wire number `v`; an unknown number reads as the
    /// zero value, as protobuf enum fields do.
    pub open spec fn of_wire(v: i32) -> Self {
        match v {
            1 => RebroadcastMode::AllSkipDecoding,
            2 => RebroadcastMode::LocalOnly,
            3 => RebroadcastMode::KnownOnly,
            4 => RebroadcastMode::NoRebroadcast,
            5 => RebroadcastMode::CorePortnumsOnly,
            _ => RebroadcastMode::All,
        }
    }

    /// The value for wire number `v`; an unknown number reads as the
    /// zero value, as protobuf enum fields do.
    pub fn from_wire(v: i32) -> (r: Self)
        ensures
            r == Self::of_wire(v),
            0 <= v < 6 ==> r.wire() == v,
            !(0 <= v < 6) ==> r == RebroadcastMode::All,
    {
        match v {
            1 => RebroadcastMode::AllSkipDecoding,
            2 => RebroadcastMode::LocalOnly,
            3 => RebroadcastMode::KnownOnly,
            4 => RebroadcastMode::NoRebroadcast,
            5 => RebroadcastMode::CorePortnumsOnly,
            _ => RebroadcastMode::All,
        }
    }

    /// The number this value has on the wire.
    pub fn to_wire(self) -> (r: i32)
        ensures
            r == self.wire(),
    {
        match self {
            RebroadcastMode::All => 0,
            RebroadcastMode::AllSkipDecoding => 1,
            RebroadcastMode::LocalOnly => 2,
            RebroadcastMode::KnownOnly => 3,
            RebroadcastMode::NoRebroadcast => 4,
            RebroadcastMode::CorePortnumsOnly => 5,
        }
    }
}

/// State of the GPS receiver. Variants are listed in wire order: the first is 0.
#[derive(Copy, Clone, Debug, PartialEq, Eq, Structural)]
pub enum GpsMode {
    Disabled,
    Enabled,
    NotPresent,
}

impl GpsMode {
    /// The number this value has on the wire.
    pub open spec fn wire(self) -> i32 {
        match self {
            GpsMode::Disabled => 0,
            GpsMode::Enabled => 1,
            GpsMode::NotPresent => 2,
        }
    }

    /// The value for wire number `v`; an unknown number reads as the
    /// zero value, as protobuf enum fields do.
    pub open spec fn of_wire(v: i32) -> Self {
        match v {
            1 => GpsMode::Enabled,
            2 => GpsMode::NotPresent,
            _ => GpsMode::Disabled,
        }
    }

    /// The value for wire number `v`; an unknown number reads as the
    /// zero value, as protobuf enum fields do.
    pub fn from_wire(v: i32) -> (r: Self)
        ensures
            r == Self::of_wire(v),
            0 <= v < 3 ==> r.wire() == v,
            !(0 <= v < 3) ==> r == GpsMode::Disabled,
    {
        match v {
            1 => GpsMode::Enabled,
            2 => GpsMode::NotPresent,
            _ => GpsMode::Disabled,
        }
    }

    /// The number this value has on the wire.
    pub fn to_wire(self) -> (r: i32)
        ensures
            r == self.wire(),
    {
        match self {
            GpsMode::Disabled => 0,
            GpsMode::Enabled => 1,
            GpsMode::NotPresent => 2,
        }
    }
}

/// Units shown on the device screen. Variants are listed in wire order: the first is 0.
#[derive(Copy, Clone, Debug, PartialEq, Eq, Structural)]
pub enum DisplayUnits {
    Metric,
    Imperial,
}

impl DisplayUnits {
    /// The number this value has on the wire.
    pub open spec fn wire(self) -> i32 {
        match self {
            DisplayUnits::Metric => 0,
            DisplayUnits::Imperial => 1,
        }
    }

    /// The value for wire number `v`; an unknown number reads as the
    /// zero value, as protobuf enum fields do.
    pub open spec fn of_wire(v: i32) -> Self {
        match v {
            1 => DisplayUnits::Imperial,
            _ => DisplayUnits::Metric,
        }
    }

    /// The value for wire number `v`; an unknown number reads as the
    /// zero value, as protobuf enum fields do.
    pub fn from_wire(v: i32) -> (r: Self)
        ensures
            r == Self::of_wire(v),
            0 <= v < 2 ==> r.wire() == v,
            !(0 <= v < 2) ==> r == DisplayUnits::Metric,
    {
        match v {
            1 => DisplayUnits::Imperial,
            _ => DisplayUnits::Metric,
        }
    }

    /// The number this value has on the wire.
    pub fn to_wire(self) -> (r: i32)
        ensures
            r == self.wire(),
    {
        match self {
            DisplayUnits::Metric => 0,
            DisplayUnits::Imperial => 1,
        }
    }
}

/// Bluetooth pairing method. Variants are listed in wire order: the first is 0.
#[derive(Copy, Clone, Debug, PartialEq, Eq, Structural)]
pub enum PairingMode {
    RandomPin,
    FixedPin,
    NoPin,
}

impl PairingMode {
    /// The number this value has on the wire.
    pub open spec fn wire(self) -> i32 {
        match self {
            PairingMode::RandomPin => 0,
            PairingMode::FixedPin => 1,
            PairingMode::NoPin => 2,
        }
    }

    /// The value for wire number `v`; an unknown number reads as the
    /// zero value, as protobuf enum fields do.
    pub open spec fn of_wire(v: i32) -> Self {
        match v {
            1 => PairingMode::FixedPin,
            2 => PairingMode::NoPin,
            _ => PairingMode::RandomPin,
        }
    }

    /// The value for wire number `v`; an unknown number reads as the
    /// zero value, as protobuf enum fields do.
    pub fn from_wire(v: i32) -> (r: Self)
        ensures
            r == Self::of_wire(v),
            0 <= v < 3 ==> r.wire() == v,
            !(0 <= v < 3) ==> r == PairingMode::RandomPin,
    {
        match v {
            1 => PairingMode::FixedPin,
            2 => PairingMode::NoPin,
            _ => PairingMode::RandomPin,
        }
    }

    /// The number this value has on the wire.
    pub fn to_wire(self) -> (r: i32)
        ensures
            r == self.wire(),
    {
        match self {
            PairingMode::RandomPin => 0,
            PairingMode::FixedPin => 1,
            PairingMode::NoPin => 2,
        }
    }
}

/// Role of a channel slot as the radio reports it. Variants are listed in wire order: the first is 0.
#[derive(Copy, Clone, Debug, PartialEq, Eq, Structural)]
pub enum ChannelRoleWire {
    Disabled,
    Primary,
    Secondary,
}

impl ChannelRoleWire {
    /// The number this value has on the wire.
    pub open spec fn wire(self) -> i32 {
        match self {
            ChannelRoleWire::Disabled => 0,
            ChannelRoleWire::Primary => 1,
            ChannelRoleWire::Secondary => 2,
        }
    }

    /// The value for wire number `v`; an unknown number reads as the
    /// zero value, as protobuf enum fields do.
    pub open spec fn of_wire(v: i32) -> Self {
        match v {
            1 => ChannelRoleWire::Primary,
            2 => ChannelRoleWire::Secondary,
            _ => ChannelRoleWire::Disabled,
        }
    }

    /// The value for wire number `v`; an unknown number reads as the
    /// zero value, as protobuf enum fields do.
    pub fn from_wire(v: i32) -> (r: Self)
        ensures
            r == Self::of_wire(v),
            0 <= v < 3 ==> r.wire() == v,
            !(0 <= v < 3) ==> r == ChannelRoleWire::Disabled,
    {
        match v {
            1 => ChannelRoleWire::Primary,
            2 => ChannelRoleWire::Secondary,
            _ => ChannelRoleWire::Disabled,
        }
    }

    /// The number this value has on the wire.
    pub fn to_wire(self) -> (r: i32)
        ensures
            r == self.wire(),
    {
        match self {
            ChannelRoleWire::Disabled => 0,
            ChannelRoleWire::Primary => 1,
            ChannelRoleWire::Secondary => 2,
        }
    }
}


// ---------------------------------------------------------------------------
// Messages, as plain values
// ---------------------------------------------------------------------------
//
// The radio speaks protobuf. These are the messages (and the fields of them)
// that the client reads or writes. `Option` marks a field that may be absent
// on the wire; floating-point fields are kept as IEEE-754 bit patterns.

/// `MyNodeInfo`: which node the connected radio is.
#[derive(Copy, Clone, Debug, PartialEq, Eq, Structural)]
pub struct MyNodeInfo {
    pub my_node_num: u32,
}

/// `User`: a node's announced identity.
#[derive(Clone, Debug, PartialEq, Eq)]
pub struct User {
    pub long_name: String,
    pub short_name: String,
    pub role: i32,
}

/// `Position` as carried in a node record (1e-7 degree units).
#[derive(Copy, Clone, Debug, PartialEq, Eq, Structural)]
pub struct PositionMsg {
    pub latitude_i: Option<i32>,
    pub longitude_i: Option<i32>,
    pub altitude: Option<i32>,
}

/// `DeviceMetrics`: battery level (percent, 101 = powered) and voltage bits.
#[derive(Copy, Clone, Debug, PartialEq, Eq, Structural)]
pub struct DeviceMetrics {
    pub battery_level: Option<u32>,
    pub voltage_bits: Option<u32>,
}

/// `NodeInfo`: one entry of the radio's node database.
#[derive(Clone, Debug, PartialEq, Eq)]
pub struct NodeInfo {
    pub num: u32,
    pub user: Option<User>,
    pub position: Option<PositionMsg>,
    pub snr_bits: u32,
    pub last_heard: u32,
    pub device_metrics: Option<DeviceMetrics>,
    pub hops_away: Option<u32>,
    pub is_favorite: bool,
    pub is_ignored: bool,
}

/// `ModuleSettings` of a channel.
#[derive(Copy, Clone, Debug, PartialEq, Eq, Structural)]
pub struct ModuleSettings {
    pub position_precision: u32,
    pub is_muted: bool,
}

/// `ChannelSettings`: name, key and MQTT flags of a channel.
#[derive(Clone, Debug, PartialEq, Eq)]
pub struct ChannelSettings {
    pub psk: Vec<u8>,
    pub name: String,
    pub uplink_enabled: bool,
    pub downlink_enabled: bool,
    pub module_settings: Option<ModuleSettings>,
}

/// `Channel`: a channel slot as the radio reports it.
#[derive(Clone, Debug, PartialEq, Eq)]
pub struct ChannelMsg {
    pub index: i32,
    pub settings: Option<ChannelSettings>,
    pub role: i32,
}

/// `Config.LoRaConfig` (the fields the client uses).
#[derive(Copy, Clone, Debug, PartialEq, Eq, Structural)]
pub struct LoRaConfig {
    pub use_preset: bool,
    pub modem_preset: i32,
    pub hop_limit: u32,
    pub tx_enabled: bool,
    pub tx_power: i32,
    pub region: i32,
}

/// `Config.DeviceConfig` (the fields the client uses).
#[derive(Clone, Debug, PartialEq, Eq)]
pub struct DeviceConfig {
    pub role: i32,
    pub rebroadcast_mode: i32,
    pub node_info_broadcast_secs: u32,
    pub disable_triple_click: bool,
    pub tzdef: String,
    pub led_heartbeat_disabled: bool,
}

/// `Config.PositionConfig` (the fields the client uses).
#[derive(Copy, Clone, Debug, PartialEq, Eq, Structural)]
pub struct PositionConfig {
    pub position_broadcast_secs: u32,
    pub position_broadcast_smart_enabled: bool,
    pub fixed_position: bool,
    pub gps_update_interval: u32,
    pub gps_mode: i32,
    pub broadcast_smart_minimum_distance: u32,
    pub broadcast_smart_minimum_interval_secs: u32,
}

/// `Config.PowerConfig` (the fields the client uses).
#[derive(Copy, Clone, Debug, PartialEq, Eq, Structural)]
pub struct PowerConfig {
    pub is_power_saving: bool,
    pub on_battery_shutdown_after_secs: u32,
    pub wait_bluetooth_secs: u32,
    pub ls_secs: u32,
    pub min_wake_secs: u32,
}

/// `Config.NetworkConfig` (the fields the client uses).
#[derive(Clone, Debug, PartialEq, Eq)]
pub struct NetworkConfig {
    pub wifi_enabled: bool,
    pub wifi_ssid: String,
    pub wifi_psk: String,
    pub ntp_server: String,
    pub eth_enabled: bool,
}

/// `Config.DisplayConfig` (the fields the client uses).
#[derive(Copy, Clone, Debug, PartialEq, Eq, Structural)]
pub struct DisplayConfig {
    pub screen_on_secs: u32,
    pub auto_screen_carousel_secs: u32,
    pub flip_screen: bool,
    pub units: i32,
    pub use_12h_clock: bool,
    pub heading_bold: bool,
    pub wake_on_tap_or_motion: bool,
}

/// `Config.BluetoothConfig`.
#[derive(Copy, Clone, Debug, PartialEq, Eq, Structural)]
pub struct BluetoothConfig {
    pub enabled: bool,
    pub mode: i32,
    pub fixed_pin: u32,
}

/// The section a `Config` message carries. Sections the client does not
/// read (security, session key, device UI) are `Unused`.
#[derive(Clone, Debug, PartialEq, Eq)]
pub enum ConfigPayload {
    Lora(LoRaConfig),
    Device(DeviceConfig),
    Position(PositionConfig),
    Power(PowerConfig),
    Network(NetworkConfig),
    Display(DisplayConfig),
    Bluetooth(BluetoothConfig),
    Unused,
}

/// `Data`: the decoded payload of a mesh packet.
#[derive(Clone, Debug, PartialEq, Eq)]
pub struct Data {
    pub portnum: i32,
    pub payload: Vec<u8>,
    pub request_id: u32,
}

/// `MeshPacket`: `decoded` is absent for a packet the radio could not decrypt.
#[derive(Clone, Debug, PartialEq, Eq)]
pub struct MeshPacket {
    pub from: u32,
    pub to: u32,
    pub channel: u32,
    pub id: u32,
    pub rx_time: u32,
    pub decoded: Option<Data>,
}

/// `QueueStatus`: the radio's answer to a packet handed to it (`res == 0`
/// means accepted).
#[derive(Copy, Clone, Debug, PartialEq, Eq, Structural)]
pub struct QueueStatus {
    pub res: i32,
    pub mesh_packet_id: u32,
}

/// `FromRadio.payload_variant`. Variants the client ignores are `Unused`.
#[derive(Clone, Debug, PartialEq, Eq)]
pub enum FromRadioPayload {
    MyInfo(MyNodeInfo),
    NodeInfo(NodeInfo),
    Channel(ChannelMsg),
    Metadata { firmware_version: String },
    Config(Option<ConfigPayload>),
    ConfigCompleteId(u32),
    Packet(MeshPacket),
    QueueStatus(QueueStatus),
    Unused,
}

/// `FromRadio`: one message from the radio.
#[derive(Clone, Debug, PartialEq, Eq)]
pub struct FromRadio {
    pub payload_variant: Option<FromRadioPayload>,
}

// ---------------------------------------------------------------------------
// Messages the client sends
// ---------------------------------------------------------------------------

/// `User` as the client sends it to rename its own node.
#[derive(Clone, Debug, PartialEq, Eq)]
pub struct OwnerUser {
    pub id: String,
    pub long_name: String,
    pub short_name: String,
}

/// `AdminMessage.payload_variant`: the administrative requests the client
/// sends to its own radio.
#[derive(Clone, Debug, PartialEq, Eq)]
pub enum AdminPayload {
    SetOwner(OwnerUser),
    SetConfig(ConfigPayload),
}

/// What an outgoing `Data` carries: UTF-8 text, or an administrative request
/// (encoded as an `AdminMessage`).
#[derive(Clone, Debug, PartialEq, Eq)]
pub enum OutgoingPayload {
    Text(Vec<u8>),
    Admin(AdminPayload),
}

/// `Data` of an outgoing packet.
#[derive(Clone, Debug, PartialEq, Eq)]
pub struct OutgoingData {
    pub portnum: i32,
    pub want_response: bool,
    pub payload: OutgoingPayload,
}

/// `MeshPacket` as the client sends it (always with a decoded payload).
#[derive(Clone, Debug, PartialEq, Eq)]
pub struct OutgoingPacket {
    pub from: u32,
    pub to: u32,
    pub channel: u32,
    pub id: u32,
    pub want_ack: bool,
    pub decoded: OutgoingData,
}

/// `ToRadio`: one message to the radio.
#[derive(Clone, Debug, PartialEq, Eq)]
pub enum ToRadio {
    Packet(OutgoingPacket),
    WantConfigId(u32),
    Heartbeat { nonce: u32 },
}

} // verus!
