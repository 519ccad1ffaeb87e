use vstd::prelude::*;

use crate::proto::meshtastic::{
    DeviceRole, DisplayUnits, GpsMode, ModemPreset, PairingMode, RebroadcastMode, RegionCode,
};

verus! {


/// Screen orientation.
#[derive(Copy, Clone, Debug, PartialEq, Eq, Structural)]
pub enum ScreenOrientation {
    Normal,
    Flipped,
}

/// Clock format shown on the device.
#[derive(Copy, Clone, Debug, PartialEq, Eq, Structural)]
pub enum ClockFormat {
    H24,
    H12,
}

impl Default for ScreenOrientation {
    fn default() -> (r: Self)
        ensures
            r == ScreenOrientation::Normal,
    {
        ScreenOrientation::Normal
    }
}

impl Default for ClockFormat {
    fn default() -> (r: Self)
        ensures
            r == ClockFormat::H24,
    {
        ClockFormat::H24
    }
}

/// LoRa radio settings.
#[derive(Debug, PartialEq, Eq)]
pub struct LoraSettings {
    pub region: RegionCode,
    pub modem_preset: ModemPreset,
    pub use_preset: bool,
    pub hop_limit: u8,
    pub tx_enabled: bool,
    pub tx_power: i32,
}

impl Clone for LoraSettings {
    fn clone(&self) -> (r: Self)
        ensures
            r == *self,
    {
        LoraSettings {
            region: self.region,
            modem_preset: self.modem_preset,
            use_preset: self.use_preset,
            hop_limit: self.hop_limit,
            tx_enabled: self.tx_enabled,
            tx_power: self.tx_power,
        }
    }
}

impl Default for LoraSettings {
    fn default() -> (r: Self)
        ensures
            r.region == RegionCode::Unset,
            r.modem_preset == ModemPreset::LongFast,
            r.use_preset == true,
            r.hop_limit == 3,
            r.tx_enabled == true,
            r.tx_power == 0,
    {
        LoraSettings {
            region: RegionCode::Unset,
            modem_preset: ModemPreset::LongFast,
            use_preset: true,
            hop_limit: 3,
            tx_enabled: true,
            tx_power: 0,
        }
    }
}

/// Device role and housekeeping settings.
#[derive(Debug, PartialEq, Eq)]
pub struct DeviceSettings {
    pub role: DeviceRole,
    pub rebroadcast_mode: RebroadcastMode,
    pub node_info_broadcast_secs: u32,
    pub disable_triple_click: bool,
    pub led_heartbeat_disabled: bool,
    pub tzdef: String,
}

impl Clone for DeviceSettings {
    fn clone(&self) -> (r: Self)
        ensures
            r == *self,
    {
        DeviceSettings {
            role: self.role,
            rebroadcast_mode: self.rebroadcast_mode,
            node_info_broadcast_secs: self.node_info_broadcast_secs,
            disable_triple_click: self.disable_triple_click,
            led_heartbeat_disabled: self.led_heartbeat_disabled,
            tzdef: self.tzdef.clone(),
        }
    }
}

impl Default for DeviceSettings {
    fn default() -> (r: Self)
        ensures
            r.role == DeviceRole::Client,
            r.rebroadcast_mode == RebroadcastMode::All,
            r.node_info_broadcast_secs == 10_800,
            r.disable_triple_click == false,
            r.led_heartbeat_disabled == false,
            r.tzdef@ == Seq::<char>::empty(),
    {
        DeviceSettings {
            role: DeviceRole::Client,
            rebroadcast_mode: RebroadcastMode::All,
            node_info_broadcast_secs: 10_800,
            disable_triple_click: false,
            led_heartbeat_disabled: false,
            tzdef: String::new(),
        }
    }
}

/// Position broadcast and GPS settings.
#[derive(Debug, PartialEq, Eq)]
pub struct PositionSettings {
    pub broadcast_secs: u32,
    pub smart_enabled: bool,
    pub fixed_position: bool,
    pub gps_update_interval: u32,
    pub gps_mode: GpsMode,
    pub smart_min_distance_m: u32,
    pub smart_min_interval_secs: u32,
}

impl Clone for PositionSettings {
    fn clone(&self) -> (r: Self)
        ensures
            r == *self,
    {
        PositionSettings {
            broadcast_secs: self.broadcast_secs,
            smart_enabled: self.smart_enabled,
            fixed_position: self.fixed_position,
            gps_update_interval: self.gps_update_interval,
            gps_mode: self.gps_mode,
            smart_min_distance_m: self.smart_min_distance_m,
            smart_min_interval_secs: self.smart_min_interval_secs,
        }
    }
}

impl Default for PositionSettings {
    fn default() -> (r: Self)
        ensures
            r.broadcast_secs == 900,
            r.smart_enabled == true,
            r.fixed_position == false,
            r.gps_update_interval == 30,
            r.gps_mode == GpsMode::Enabled,
            r.smart_min_distance_m == 0,
            r.smart_min_interval_secs == 0,
    {
        PositionSettings {
            broadcast_secs: 900,
            smart_enabled: true,
            fixed_position: false,
            gps_update_interval: 30,
            gps_mode: GpsMode::Enabled,
            smart_min_distance_m: 0,
            smart_min_interval_secs: 0,
        }
    }
}

/// Power-saving settings.
#[derive(Debug, PartialEq, Eq)]
pub struct PowerSettings {
    pub is_power_saving: bool,
    pub on_battery_shutdown_after_secs: u32,
    pub wait_bluetooth_secs: u32,
    pub ls_secs: u32,
    pub min_wake_secs: u32,
}

impl Clone for PowerSettings {
    fn clone(&self) -> (r: Self)
        ensures
            r == *self,
    {
        PowerSettings {
            is_power_saving: self.is_power_saving,
            on_battery_shutdown_after_secs: self.on_battery_shutdown_after_secs,
            wait_bluetooth_secs: self.wait_bluetooth_secs,
            ls_secs: self.ls_secs,
            min_wake_secs: self.min_wake_secs,
        }
    }
}

impl Default for PowerSettings {
    fn default() -> (r: Self)
        ensures
            r.is_power_saving == false,
            r.on_battery_shutdown_after_secs == 0,
            r.wait_bluetooth_secs == 0,
            r.ls_secs == 0,
            r.min_wake_secs == 0,
    {
        PowerSettings {
            is_power_saving: false,
            on_battery_shutdown_after_secs: 0,
            wait_bluetooth_secs: 0,
            ls_secs: 0,
            min_wake_secs: 0,
        }
    }
}

/// Wi-Fi / Ethernet settings.
#[derive(Debug, PartialEq, Eq)]
pub struct NetworkSettings {
    pub wifi_enabled: bool,
    pub wifi_ssid: String,
    pub wifi_psk: String,
    pub ntp_server: String,
    pub eth_enabled: bool,
}

impl Clone for NetworkSettings {
    fn clone(&self) -> (r: Self)
        ensures
            r == *self,
    {
        NetworkSettings {
            wifi_enabled: self.wifi_enabled,
            wifi_ssid: self.wifi_ssid.clone(),
            wifi_psk: self.wifi_psk.clone(),
            ntp_server: self.ntp_server.clone(),
            eth_enabled: self.eth_enabled,
        }
    }
}

impl Default for NetworkSettings {
    fn default() -> (r: Self)
        ensures
            r.wifi_enabled == false,
            r.wifi_ssid@ == Seq::<char>::empty(),
            r.wifi_psk@ == Seq::<char>::empty(),
            r.ntp_server@ == Seq::<char>::empty(),
            r.eth_enabled == false,
    {
        NetworkSettings {
            wifi_enabled: false,
            wifi_ssid: String::new(),
            wifi_psk: String::new(),
            ntp_server: String::new(),
            eth_enabled: false,
        }
    }
}

/// Screen settings.
#[derive(Debug, PartialEq, Eq)]
pub struct DisplaySettings {
    pub screen_on_secs: u32,
    pub auto_carousel_secs: u32,
    pub orientation: ScreenOrientation,
    pub units: DisplayUnits,
    pub clock: ClockFormat,
    pub heading_bold: bool,
    pub wake_on_tap_or_motion: bool,
}

impl Clone for DisplaySettings {
    fn clone(&self) -> (r: Self)
        ensures
            r == *self,
    {
        DisplaySettings {
            screen_on_secs: self.screen_on_secs,
            auto_carousel_secs: self.auto_carousel_secs,
            orientation: self.orientation,
            units: self.units,
            clock: self.clock,
            heading_bold: self.heading_bold,
            wake_on_tap_or_motion: self.wake_on_tap_or_motion,
        }
    }
}

impl Default for DisplaySettings {
    fn default() -> (r: Self)
        ensures
            r.screen_on_secs == 0,
            r.auto_carousel_secs == 0,
            r.orientation == ScreenOrientation::Normal,
            r.units == DisplayUnits::Metric,
            r.clock == ClockFormat::H24,
            r.heading_bold == false,
            r.wake_on_tap_or_motion == false,
    {
        DisplaySettings {
            screen_on_secs: 0,
            auto_carousel_secs: 0,
            orientation: ScreenOrientation::Normal,
            units: DisplayUnits::Metric,
            clock: ClockFormat::H24,
            heading_bold: false,
            wake_on_tap_or_motion: false,
        }
    }
}

/// Bluetooth settings.
#[derive(Debug, PartialEq, Eq)]
pub struct BluetoothSettings {
    pub enabled: bool,
    pub mode: PairingMode,
    pub fixed_pin: u32,
}

impl Clone for BluetoothSettings {
    fn clone(&self) -> (r: Self)
        ensures
            r == *self,
    {
        BluetoothSettings {
            enabled: self.enabled,
            mode: self.mode,
            fixed_pin: self.fixed_pin,
        }
    }
}

impl Default for BluetoothSettings {
    fn default() -> (r: Self)
        ensures
            r.enabled == true,
            r.mode == PairingMode::RandomPin,
            r.fixed_pin == 0,
    {
        BluetoothSettings {
            enabled: true,
            mode: PairingMode::RandomPin,
            fixed_pin: 0,
        }
    }
}

} // verus!

verus! {

// ---- Label tables ----

/// Name of a screen orientation.
pub open spec fn orientation_text(o: ScreenOrientation) -> Seq<char> {
    match o {
        ScreenOrientation::Normal => "Normal"@,
        ScreenOrientation::Flipped => "Flipped"@,
    }
}

/// Name of a screen orientation.
pub fn orientation_label(o: ScreenOrientation) -> (s: &'static str)
    ensures
        s@ == orientation_text(o),
{
    match o {
        ScreenOrientation::Normal => "Normal",
        ScreenOrientation::Flipped => "Flipped",
    }
}

/// Name of a clock format.
pub open spec fn clock_text(c: ClockFormat) -> Seq<char> {
    match c {
        ClockFormat::H24 => "24-hour"@,
        ClockFormat::H12 => "12-hour"@,
    }
}

/// Name of a clock format.
pub fn clock_label(c: ClockFormat) -> (s: &'static str)
    ensures
        s@ == clock_text(c),
{
    match c {
        ClockFormat::H24 => "24-hour",
        ClockFormat::H12 => "12-hour",
    }
}

/// Name of a LoRa region.
pub open spec fn region_text(region: RegionCode) -> Seq<char> {
    match region {
        RegionCode::Unset => "Unset"@,
        RegionCode::Us => "US"@,
        RegionCode::Eu433 => "EU 433"@,
        RegionCode::Eu868 => "EU 868"@,
        RegionCode::Cn => "China"@,
        RegionCode::Jp => "Japan"@,
        RegionCode::Anz => "Australia / NZ"@,
        RegionCode::Anz433 => "Australia / NZ 433"@,
        RegionCode::Kr => "Korea"@,
        RegionCode::Tw => "Taiwan"@,
        RegionCode::Ru => "Russia"@,
        RegionCode::In => "India"@,
        RegionCode::Nz865 => "New Zealand 865"@,
        RegionCode::Th => "Thailand"@,
        RegionCode::Lora24 => "LoRa 2.4 GHz"@,
        RegionCode::Ua433 => "Ukraine 433"@,
        RegionCode::Ua868 => "Ukraine 868"@,
        RegionCode::My433 => "Malaysia 433"@,
        RegionCode::My919 => "Malaysia 919"@,
        RegionCode::Sg923 => "Singapore 923"@,
        RegionCode::Ph433 => "Philippines 433"@,
        RegionCode::Ph868 => "Philippines 868"@,
        RegionCode::Ph915 => "Philippines 915"@,
        RegionCode::Kz433 => "Kazakhstan 433"@,
        RegionCode::Kz863 => "Kazakhstan 863"@,
        RegionCode::Np865 => "Nepal 865"@,
        RegionCode::Br902 => "Brazil 902"@,
    }
}

/// Name of a LoRa region.
pub fn region_label(region: RegionCode) -> (s: &'static str)
    ensures
        s@ == region_text(region),
{
    match region {
        RegionCode::Unset => "Unset",
        RegionCode::Us => "US",
        RegionCode::Eu433 => "EU 433",
        RegionCode::Eu868 => "EU 868",
        RegionCode::Cn => "China",
        RegionCode::Jp => "Japan",
        RegionCode::Anz => "Australia / NZ",
        RegionCode::Anz433 => "Australia / NZ 433",
        RegionCode::Kr => "Korea",
        RegionCode::Tw => "Taiwan",
        RegionCode::Ru => "Russia",
        RegionCode::In => "India",
        RegionCode::Nz865 => "New Zealand 865",
        RegionCode::Th => "Thailand",
        RegionCode::Lora24 => "LoRa 2.4 GHz",
        RegionCode::Ua433 => "Ukraine 433",
        RegionCode::Ua868 => "Ukraine 868",
        RegionCode::My433 => "Malaysia 433",
        RegionCode::My919 => "Malaysia 919",
        RegionCode::Sg923 => "Singapore 923",
        RegionCode::Ph433 => "Philippines 433",
        RegionCode::Ph868 => "Philippines 868",
        RegionCode::Ph915 => "Philippines 915",
        RegionCode::Kz433 => "Kazakhstan 433",
        RegionCode::Kz863 => "Kazakhstan 863",
        RegionCode::Np865 => "Nepal 865",
        RegionCode::Br902 => "Brazil 902",
    }
}


/// The region a label of `region_text` names, read from its length, its
/// first character and its last but one.
spec fn region_of_label(n: nat, first: char, penult: char) -> RegionCode {
    if n == 5 && first == 'U' && penult == 'e' {
        RegionCode::Unset
    } else if n == 2 && first == 'U' && penult == 'U' {
        RegionCode::Us
    } else if n == 6 && first == 'E' && penult == '3' {
        RegionCode::Eu433
    } else if n == 6 && first == 'E' && penult == '6' {
        RegionCode::Eu868
    } else if n == 5 && first == 'C' && penult == 'n' {
        RegionCode::Cn
    } else if n == 5 && first == 'J' && penult == 'a' {
        RegionCode::Jp
    } else if n == 14 && first == 'A' && penult == 'N' {
        RegionCode::Anz
    } else if n == 18 && first == 'A' && penult == '3' {
        RegionCode::Anz433
    } else if n == 5 && first == 'K' && penult == 'e' {
        RegionCode::Kr
    } else if n == 6 && first == 'T' && penult == 'a' {
        RegionCode::Tw
    } else if n == 6 && first == 'R' && penult == 'i' {
        RegionCode::Ru
    } else if n == 5 && first == 'I' && penult == 'i' {
        RegionCode::In
    } else if n == 15 && first == 'N' && penult == '6' {
        RegionCode::Nz865
    } else if n == 8 && first == 'T' && penult == 'n' {
        RegionCode::Th
    } else if n == 12 && first == 'L' && penult == 'H' {
        RegionCode::Lora24
    } else if n == 11 && first == 'U' && penult == '3' {
        RegionCode::Ua433
    } else if n == 11 && first == 'U' && penult == '6' {
        RegionCode::Ua868
    } else if n == 12 && first == 'M' && penult == '3' {
        RegionCode::My433
    } else if n == 12 && first == 'M' && penult == '1' {
        RegionCode::My919
    } else if n == 13 && first == 'S' && penult == '2' {
        RegionCode::Sg923
    } else if n == 15 && first == 'P' && penult == '3' {
        RegionCode::Ph433
    } else if n == 15 && first == 'P' && penult == '6' {
        RegionCode::Ph868
    } else if n == 15 && first == 'P' && penult == '1' {
        RegionCode::Ph915
    } else if n == 14 && first == 'K' && penult == '3' {
        RegionCode::Kz433
    } else if n == 14 && first == 'K' && penult == '6' {
        RegionCode::Kz863
    } else if n == 9 && first == 'N' && penult == '6' {
        RegionCode::Np865
    } else if n == 10 && first == 'B' && penult == '0' {
        RegionCode::Br902
    } else {
        RegionCode::Unset
    }
}

/// Each region's label tells the region back.
proof fn lemma_region_label_names(r: RegionCode)
    ensures
        region_text(r).len() >= 2,
        region_of_label(region_text(r).len(), region_text(r)[0], region_text(r)[region_text(r).len() - 2]) == r,
{
    match r {
        RegionCode::Unset => {
            reveal_strlit("Unset");
        },
        RegionCode::Us => {
            reveal_strlit("US");
        },
        RegionCode::Eu433 => {
            reveal_strlit("EU 433");
        },
        RegionCode::Eu868 => {
            reveal_strlit("EU 868");
        },
        RegionCode::Cn => {
            reveal_strlit("China");
        },
        RegionCode::Jp => {
            reveal_strlit("Japan");
        },
        RegionCode::Anz => {
            reveal_strlit("Australia / NZ");
        },
        RegionCode::Anz433 => {
            reveal_strlit("Australia / NZ 433");
        },
        RegionCode::Kr => {
            reveal_strlit("Korea");
        },
        RegionCode::Tw => {
            reveal_strlit("Taiwan");
        },
        RegionCode::Ru => {
            reveal_strlit("Russia");
        },
        RegionCode::In => {
            reveal_strlit("India");
        },
        RegionCode::Nz865 => {
            reveal_strlit("New Zealand 865");
        },
        RegionCode::Th => {
            reveal_strlit("Thailand");
        },
        RegionCode::Lora24 => {
            reveal_strlit("LoRa 2.4 GHz");
        },
        RegionCode::Ua433 => {
            reveal_strlit("Ukraine 433");
        },
        RegionCode::Ua868 => {
            reveal_strlit("Ukraine 868");
        },
        RegionCode::My433 => {
            reveal_strlit("Malaysia 433");
        },
        RegionCode::My919 => {
            reveal_strlit("Malaysia 919");
        },
        RegionCode::Sg923 => {
            reveal_strlit("Singapore 923");
        },
        RegionCode::Ph433 => {
            reveal_strlit("Philippines 433");
        },
        RegionCode::Ph868 => {
            reveal_strlit("Philippines 868");
        },
        RegionCode::Ph915 => {
            reveal_strlit("Philippines 915");
        },
        RegionCode::Kz433 => {
            reveal_strlit("Kazakhstan 433");
        },
        RegionCode::Kz863 => {
            reveal_strlit("Kazakhstan 863");
        },
        RegionCode::Np865 => {
            reveal_strlit("Nepal 865");
        },
        RegionCode::Br902 => {
            reveal_strlit("Brazil 902");
        },
    }
}

/// The region labels are distinct and none is empty, so a choice among them
/// is never ambiguous.
pub proof fn lemma_region_labels_distinct(a: RegionCode, b: RegionCode)
    ensures
        region_text(a).len() > 0,
        region_text(a) == region_text(b) <==> a == b,
{
    lemma_region_label_names(a);
    lemma_region_label_names(b);
}

/// Name of a modem preset.
pub open spec fn modem_preset_text(preset: ModemPreset) -> Seq<char> {
    match preset {
        ModemPreset::LongFast => "Long Fast"@,
        ModemPreset::LongModerate => "Long Moderate"@,
        ModemPreset::LongSlow => "Long Slow"@,
        ModemPreset::MediumFast => "Medium Fast"@,
        ModemPreset::MediumSlow => "Medium Slow"@,
        ModemPreset::ShortFast => "Short Fast"@,
        ModemPreset::ShortSlow => "Short Slow"@,
        ModemPreset::ShortTurbo => "Short Turbo"@,
        ModemPreset::LongTurbo => "Long Turbo"@,
        ModemPreset::VeryLongSlow => "Very Long Slow"@,
    }
}

/// Name of a modem preset.
pub fn modem_preset_label(preset: ModemPreset) -> (s: &'static str)
    ensures
        s@ == modem_preset_text(preset),
{
    match preset {
        ModemPreset::LongFast => "Long Fast",
        ModemPreset::LongModerate => "Long Moderate",
        ModemPreset::LongSlow => "Long Slow",
        ModemPreset::MediumFast => "Medium Fast",
        ModemPreset::MediumSlow => "Medium Slow",
        ModemPreset::ShortFast => "Short Fast",
        ModemPreset::ShortSlow => "Short Slow",
        ModemPreset::ShortTurbo => "Short Turbo",
        ModemPreset::LongTurbo => "Long Turbo",
        ModemPreset::VeryLongSlow => "Very Long Slow",
    }
}

/// Name of a device role.
pub open spec fn device_role_text(role: DeviceRole) -> Seq<char> {
    match role {
        DeviceRole::Client => "Client"@,
        DeviceRole::ClientMute => "Client Mute"@,
        DeviceRole::ClientHidden => "Client Hidden"@,
        DeviceRole::ClientBase => "Client Base"@,
        DeviceRole::Router => "Router"@,
        DeviceRole::RouterClient => "Router / Client"@,
        DeviceRole::RouterLate => "Router Late"@,
        DeviceRole::Repeater => "Repeater"@,
        DeviceRole::Tracker => "Tracker"@,
        DeviceRole::Sensor => "Sensor"@,
        DeviceRole::Tak => "TAK"@,
        DeviceRole::TakTracker => "TAK Tracker"@,
        DeviceRole::LostAndFound => "Lost and Found"@,
    }
}

/// Name of a device role.
pub fn device_role_label(role: DeviceRole) -> (s: &'static str)
    ensures
        s@ == device_role_text(role),
{
    match role {
        DeviceRole::Client => "Client",
        DeviceRole::ClientMute => "Client Mute",
        DeviceRole::ClientHidden => "Client Hidden",
        DeviceRole::ClientBase => "Client Base",
        DeviceRole::Router => "Router",
        DeviceRole::RouterClient => "Router / Client",
        DeviceRole::RouterLate => "Router Late",
        DeviceRole::Repeater => "Repeater",
        DeviceRole::Tracker => "Tracker",
        DeviceRole::Sensor => "Sensor",
        DeviceRole::Tak => "TAK",
        DeviceRole::TakTracker => "TAK Tracker",
        DeviceRole::LostAndFound => "Lost and Found",
    }
}

/// Name of a rebroadcast mode.
pub open spec fn rebroadcast_text(mode: RebroadcastMode) -> Seq<char> {
    match mode {
        RebroadcastMode::All => "All"@,
        RebroadcastMode::AllSkipDecoding => "All (skip decoding)"@,
        RebroadcastMode::LocalOnly => "Local only"@,
        RebroadcastMode::KnownOnly => "Known only"@,
        RebroadcastMode::NoRebroadcast => "None"@,
        RebroadcastMode::CorePortnumsOnly => "Core portnums only"@,
    }
}

/// Name of a rebroadcast mode.
pub fn rebroadcast_label(mode: RebroadcastMode) -> (s: &'static str)
    ensures
        s@ == rebroadcast_text(mode),
{
    match mode {
        RebroadcastMode::All => "All",
        RebroadcastMode::AllSkipDecoding => "All (skip decoding)",
        RebroadcastMode::LocalOnly => "Local only",
        RebroadcastMode::KnownOnly => "Known only",
        RebroadcastMode::NoRebroadcast => "None",
        RebroadcastMode::CorePortnumsOnly => "Core portnums only",
    }
}

/// Name of a GPS mode.
pub open spec fn gps_mode_text(mode: GpsMode) -> Seq<char> {
    match mode {
        GpsMode::Disabled => "Disabled"@,
        GpsMode::Enabled => "Enabled"@,
        GpsMode::NotPresent => "Not present"@,
    }
}

/// Name of a GPS mode.
pub fn gps_mode_label(mode: GpsMode) -> (s: &'static str)
    ensures
        s@ == gps_mode_text(mode),
{
    match mode {
        GpsMode::Disabled => "Disabled",
        GpsMode::Enabled => "Enabled",
        GpsMode::NotPresent => "Not present",
    }
}

/// Name of a unit system.
pub open spec fn display_units_text(u: DisplayUnits) -> Seq<char> {
    match u {
        DisplayUnits::Metric => "Metric"@,
        DisplayUnits::Imperial => "Imperial"@,
    }
}

/// Name of a unit system.
pub fn display_units_label(u: DisplayUnits) -> (s: &'static str)
    ensures
        s@ == display_units_text(u),
{
    match u {
        DisplayUnits::Metric => "Metric",
        DisplayUnits::Imperial => "Imperial",
    }
}

/// Name of a pairing method.
pub open spec fn pairing_mode_text(mode: PairingMode) -> Seq<char> {
    match mode {
        PairingMode::RandomPin => "Random PIN (on screen)"@,
        PairingMode::FixedPin => "Fixed PIN"@,
        PairingMode::NoPin => "No PIN"@,
    }
}

/// Name of a pairing method.
pub fn pairing_mode_label(mode: PairingMode) -> (s: &'static str)
    ensures
        s@ == pairing_mode_text(mode),
{
    match mode {
        PairingMode::RandomPin => "Random PIN (on screen)",
        PairingMode::FixedPin => "Fixed PIN",
        PairingMode::NoPin => "No PIN",
    }
}

} // verus!
