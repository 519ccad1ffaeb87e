use vstd::prelude::*;

use crate::domain::channel::{Channel, ChannelRole};
use crate::domain::config::{
    BluetoothSettings, ClockFormat, DeviceSettings, DisplaySettings, LoraSettings,
    NetworkSettings, PositionSettings, PowerSettings, ScreenOrientation,
};
use crate::domain::ids::{ChannelIndex, ConfigId, NodeId, PacketId, BROADCAST_NUM};
use crate::domain::message::{DeliveryState, Direction, Recipient, TextMessage};
use crate::domain::node::{Node, NodeRole, Position};
use crate::domain::session::HandshakeFragment;
use crate::proto::meshtastic::{
    BluetoothConfig, ChannelMsg, ChannelRoleWire, ConfigPayload, DeviceConfig, DeviceRole,
    DisplayConfig, DisplayUnits, FromRadio, FromRadioPayload, GpsMode, LoRaConfig, MeshPacket,
    ModemPreset, NetworkConfig, NodeInfo, PairingMode, PositionConfig, PowerConfig,
    RebroadcastMode, RegionCode,
};
use crate::proto::port::{parse, PortPayload, TEXT_MESSAGE_APP};
use vstd::utf8::{decode_utf8, valid_utf8};

verus! {

// ---------------------------------------------------------------------------
// Configuration sections
// ---------------------------------------------------------------------------

/// LoRa settings from the radio's LoRa section (hop limit capped at 7).
pub open spec fn lora_of(l: LoRaConfig) -> LoraSettings {
    LoraSettings {
        region: RegionCode::of_wire(l.region),
        modem_preset: ModemPreset::of_wire(l.modem_preset),
        use_preset: l.use_preset,
        hop_limit: (if l.hop_limit < 7 { l.hop_limit } else { 7u32 }) as u8,
        tx_enabled: l.tx_enabled,
        tx_power: l.tx_power,
    }
}

/// Reads the LoRa section; the hop limit is capped at 7.
pub fn lora_from_proto(lora: &LoRaConfig) -> (r: LoraSettings)
    ensures
        r == lora_of(*lora),
{
    let hop: u32 = if lora.hop_limit < 7 { lora.hop_limit } else { 7 };
    LoraSettings {
        region: RegionCode::from_wire(lora.region),
        modem_preset: ModemPreset::from_wire(lora.modem_preset),
        use_preset: lora.use_preset,
        hop_limit: hop as u8,
        tx_enabled: lora.tx_enabled,
        tx_power: lora.tx_power,
    }
}

/// Device settings from the radio's device section.
pub open spec fn device_of(d: DeviceConfig) -> DeviceSettings {
    DeviceSettings {
        role: DeviceRole::of_wire(d.role),
        rebroadcast_mode: RebroadcastMode::of_wire(d.rebroadcast_mode),
        node_info_broadcast_secs: d.node_info_broadcast_secs,
        disable_triple_click: d.disable_triple_click,
        led_heartbeat_disabled: d.led_heartbeat_disabled,
        tzdef: d.tzdef,
    }
}

/// Reads the device section.
pub fn device_from_proto(d: &DeviceConfig) -> (r: DeviceSettings)
    ensures
        r == device_of(*d),
{
    DeviceSettings {
        role: DeviceRole::from_wire(d.role),
        rebroadcast_mode: RebroadcastMode::from_wire(d.rebroadcast_mode),
        node_info_broadcast_secs: d.node_info_broadcast_secs,
        disable_triple_click: d.disable_triple_click,
        led_heartbeat_disabled: d.led_heartbeat_disabled,
        tzdef: d.tzdef.clone(),
    }
}

/// Position settings from the radio's position section.
pub open spec fn position_of(p: PositionConfig) -> PositionSettings {
    PositionSettings {
        broadcast_secs: p.position_broadcast_secs,
        smart_enabled: p.position_broadcast_smart_enabled,
        fixed_position: p.fixed_position,
        gps_update_interval: p.gps_update_interval,
        gps_mode: GpsMode::of_wire(p.gps_mode),
        smart_min_distance_m: p.broadcast_smart_minimum_distance,
        smart_min_interval_secs: p.broadcast_smart_minimum_interval_secs,
    }
}

/// Reads the position section.
pub fn position_from_proto(p: &PositionConfig) -> (r: PositionSettings)
    ensures
        r == position_of(*p),
{
    PositionSettings {
        broadcast_secs: p.position_broadcast_secs,
        smart_enabled: p.position_broadcast_smart_enabled,
        fixed_position: p.fixed_position,
        gps_update_interval: p.gps_update_interval,
        gps_mode: GpsMode::from_wire(p.gps_mode),
        smart_min_distance_m: p.broadcast_smart_minimum_distance,
        smart_min_interval_secs: p.broadcast_smart_minimum_interval_secs,
    }
}

/// Power settings from the radio's power section.
pub open spec fn power_of(p: PowerConfig) -> PowerSettings {
    PowerSettings {
        is_power_saving: p.is_power_saving,
        on_battery_shutdown_after_secs: p.on_battery_shutdown_after_secs,
        wait_bluetooth_secs: p.wait_bluetooth_secs,
        ls_secs: p.ls_secs,
        min_wake_secs: p.min_wake_secs,
    }
}

/// Reads the power section.
pub fn power_from_proto(p: &PowerConfig) -> (r: PowerSettings)
    ensures
        r == power_of(*p),
{
    PowerSettings {
        is_power_saving: p.is_power_saving,
        on_battery_shutdown_after_secs: p.on_battery_shutdown_after_secs,
        wait_bluetooth_secs: p.wait_bluetooth_secs,
        ls_secs: p.ls_secs,
        min_wake_secs: p.min_wake_secs,
    }
}

/// Network settings from the radio's network section.
pub open spec fn network_of(n: NetworkConfig) -> NetworkSettings {
    NetworkSettings {
        wifi_enabled: n.wifi_enabled,
        wifi_ssid: n.wifi_ssid,
        wifi_psk: n.wifi_psk,
        ntp_server: n.ntp_server,
        eth_enabled: n.eth_enabled,
    }
}

/// Reads the network section.
pub fn network_from_proto(n: &NetworkConfig) -> (r: NetworkSettings)
    ensures
        r == network_of(*n),
{
    NetworkSettings {
        wifi_enabled: n.wifi_enabled,
        wifi_ssid: n.wifi_ssid.clone(),
        wifi_psk: n.wifi_psk.clone(),
        ntp_server: n.ntp_server.clone(),
        eth_enabled: n.eth_enabled,
    }
}

/// Display settings from the radio's display section.
pub open spec fn display_of(d: DisplayConfig) -> DisplaySettings {
    DisplaySettings {
        screen_on_secs: d.screen_on_secs,
        auto_carousel_secs: d.auto_screen_carousel_secs,
        orientation: if d.flip_screen {
            ScreenOrientation::Flipped
        } else {
            ScreenOrientation::Normal
        },
        units: DisplayUnits::of_wire(d.units),
        clock: if d.use_12h_clock {
            ClockFormat::H12
        } else {
            ClockFormat::H24
        },
        heading_bold: d.heading_bold,
        wake_on_tap_or_motion: d.wake_on_tap_or_motion,
    }
}

/// Reads the display section.
pub fn display_from_proto(d: &DisplayConfig) -> (r: DisplaySettings)
    ensures
        r == display_of(*d),
{
    DisplaySettings {
        screen_on_secs: d.screen_on_secs,
        auto_carousel_secs: d.auto_screen_carousel_secs,
        orientation: if d.flip_screen {
            ScreenOrientation::Flipped
        } else {
            ScreenOrientation::Normal
        },
        units: DisplayUnits::from_wire(d.units),
        clock: if d.use_12h_clock {
            ClockFormat::H12
        } else {
            ClockFormat::H24
        },
        heading_bold: d.heading_bold,
        wake_on_tap_or_motion: d.wake_on_tap_or_motion,
    }
}

/// Bluetooth settings from the radio's Bluetooth section.
pub open spec fn bluetooth_of(b: BluetoothConfig) -> BluetoothSettings {
    BluetoothSettings { enabled: b.enabled, mode: PairingMode::of_wire(b.mode), fixed_pin: b.fixed_pin }
}

/// Reads the Bluetooth section.
pub fn bluetooth_from_proto(b: &BluetoothConfig) -> (r: BluetoothSettings)
    ensures
        r == bluetooth_of(*b),
{
    BluetoothSettings { enabled: b.enabled, mode: PairingMode::from_wire(b.mode), fixed_pin: b.fixed_pin }
}

/// The fragments a configuration section becomes (sections the client does
/// not track become none).
pub open spec fn config_fragments_ok(cfg: Option<ConfigPayload>, r: Seq<HandshakeFragment>) -> bool {
    match cfg {
        Some(ConfigPayload::Lora(l)) => r == seq![HandshakeFragment::Lora(lora_of(l))],
        Some(ConfigPayload::Device(d)) => r == seq![HandshakeFragment::Device(device_of(d))],
        Some(ConfigPayload::Position(p)) => r == seq![HandshakeFragment::Position(position_of(p))],
        Some(ConfigPayload::Power(p)) => r == seq![HandshakeFragment::Power(power_of(p))],
        Some(ConfigPayload::Network(n)) => r == seq![HandshakeFragment::Network(network_of(n))],
        Some(ConfigPayload::Display(d)) => r == seq![HandshakeFragment::Display(display_of(d))],
        Some(ConfigPayload::Bluetooth(b)) => r == seq![
            HandshakeFragment::Bluetooth(bluetooth_of(b)),
        ],
        _ => r.len() == 0,
    }
}

fn config_fragments(cfg: Option<ConfigPayload>) -> (r: Vec<HandshakeFragment>)
    ensures
        config_fragments_ok(cfg, r@),
{
    let mut out: Vec<HandshakeFragment> = Vec::new();
    match cfg {
        Some(ConfigPayload::Lora(l)) => out.push(HandshakeFragment::Lora(lora_from_proto(&l))),
        Some(ConfigPayload::Device(d)) => out.push(
            HandshakeFragment::Device(device_from_proto(&d)),
        ),
        Some(ConfigPayload::Position(p)) => out.push(
            HandshakeFragment::Position(position_from_proto(&p)),
        ),
        Some(ConfigPayload::Power(p)) => out.push(HandshakeFragment::Power(power_from_proto(&p))),
        Some(ConfigPayload::Network(n)) => out.push(
            HandshakeFragment::Network(network_from_proto(&n)),
        ),
        Some(ConfigPayload::Display(d)) => out.push(
            HandshakeFragment::Display(display_from_proto(&d)),
        ),
        Some(ConfigPayload::Bluetooth(b)) => out.push(
            HandshakeFragment::Bluetooth(bluetooth_from_proto(&b)),
        ),
        _ => {},
    }
    assert(config_fragments_ok(cfg, out@)) by {
        match cfg {
            Some(ConfigPayload::Unused) => {},
            None => {},
            _ => {
                assert(out@.len() == 1);
            },
        }
    }
    out
}

// ---------------------------------------------------------------------------
// Node records
// ---------------------------------------------------------------------------

/// The node role for a device role.
pub open spec fn node_role_of(role: DeviceRole) -> NodeRole {
    match role {
        DeviceRole::Client => NodeRole::Client,
        DeviceRole::ClientMute => NodeRole::ClientMute,
        DeviceRole::ClientHidden => NodeRole::ClientHidden,
        DeviceRole::ClientBase => NodeRole::ClientBase,
        DeviceRole::Router => NodeRole::Router,
        DeviceRole::RouterClient => NodeRole::RouterClient,
        DeviceRole::RouterLate => NodeRole::RouterLate,
        DeviceRole::Repeater => NodeRole::Repeater,
        DeviceRole::Tracker => NodeRole::Tracker,
        DeviceRole::Sensor => NodeRole::Sensor,
        DeviceRole::Tak => NodeRole::Tak,
        DeviceRole::TakTracker => NodeRole::TakTracker,
        DeviceRole::LostAndFound => NodeRole::LostAndFound,
    }
}

/// The node role for a device role.
pub fn role_from_proto(role: DeviceRole) -> (r: NodeRole)
    ensures
        r == node_role_of(role),
{
    match role {
        DeviceRole::Client => NodeRole::Client,
        DeviceRole::ClientMute => NodeRole::ClientMute,
        DeviceRole::ClientHidden => NodeRole::ClientHidden,
        DeviceRole::ClientBase => NodeRole::ClientBase,
        DeviceRole::Router => NodeRole::Router,
        DeviceRole::RouterClient => NodeRole::RouterClient,
        DeviceRole::RouterLate => NodeRole::RouterLate,
        DeviceRole::Repeater => NodeRole::Repeater,
        DeviceRole::Tracker => NodeRole::Tracker,
        DeviceRole::Sensor => NodeRole::Sensor,
        DeviceRole::Tak => NodeRole::Tak,
        DeviceRole::TakTracker => NodeRole::TakTracker,
        DeviceRole::LostAndFound => NodeRole::LostAndFound,
    }
}

/// The value of an optional protobuf field, or its default 0.
pub open spec fn or_zero_u32(o: Option<u32>) -> u32 {
    match o {
        Some(v) => v,
        None => 0,
    }
}

/// The value of an optional protobuf field, or its default 0.
pub open spec fn or_zero_i32(o: Option<i32>) -> i32 {
    match o {
        Some(v) => v,
        None => 0,
    }
}

/// `n` is the node record the radio's entry `ni` describes: names and role
/// from the user record (empty names and `Client` without one), metrics from
/// the device metrics (absent fields read as 0), the link SNR, hop count
/// (absent reads as 0), last-heard time in milliseconds (0 means never), and
/// the position in 1e-7 degree units.
pub open spec fn node_from_info(ni: NodeInfo, n: Node) -> bool {
    &&& n.id == NodeId(ni.num)
    &&& n.long_name@ == match ni.user {
        Some(u) => u.long_name@,
        None => Seq::<char>::empty(),
    }
    &&& n.short_name@ == match ni.user {
        Some(u) => u.short_name@,
        None => Seq::<char>::empty(),
    }
    &&& n.role == match ni.user {
        Some(u) => node_role_of(DeviceRole::of_wire(u.role)),
        None => NodeRole::Client,
    }
    &&& n.battery_level == match ni.device_metrics {
        Some(m) => Some(or_zero_u32(m.battery_level) as u8),
        None => None,
    }
    &&& n.voltage_v_bits == match ni.device_metrics {
        Some(m) => Some(or_zero_u32(m.voltage_bits)),
        None => None,
    }
    &&& n.snr_db_bits == Some(ni.snr_bits)
    &&& n.rssi_dbm is None
    &&& n.hops_away == Some(or_zero_u32(ni.hops_away) as u8)
    &&& n.last_heard_ms == if ni.last_heard == 0 {
        None
    } else {
        Some((ni.last_heard * 1000) as u64)
    }
    &&& n.position == match ni.position {
        Some(p) => Some(
            Position {
                latitude_i: or_zero_i32(p.latitude_i),
                longitude_i: or_zero_i32(p.longitude_i),
                altitude_m: Some(or_zero_i32(p.altitude)),
            },
        ),
        None => None,
    }
    &&& n.is_favorite == ni.is_favorite
    &&& n.is_ignored == ni.is_ignored
}

fn zero_u32(o: Option<u32>) -> (r: u32)
    ensures
        r == or_zero_u32(o),
{
    match o {
        Some(v) => v,
        None => 0,
    }
}

fn zero_i32(o: Option<i32>) -> (r: i32)
    ensures
        r == or_zero_i32(o),
{
    match o {
        Some(v) => v,
        None => 0,
    }
}

/// Reads a node record from the radio's node database entry.
pub fn node_from_proto(ni: &NodeInfo) -> (r: Node)
    ensures
        node_from_info(*ni, r),
{
    let (long_name, short_name, role) = match &ni.user {
        Some(u) => (u.long_name.clone(), u.short_name.clone(), role_from_proto(DeviceRole::from_wire(u.role))),
        None => (String::new(), String::new(), NodeRole::Client),
    };
    let (battery_level, voltage_v_bits) = match &ni.device_metrics {
        Some(m) => (Some(zero_u32(m.battery_level) as u8), Some(zero_u32(m.voltage_bits))),
        None => (None, None),
    };
    let last_heard_ms: Option<u64> = if ni.last_heard == 0 {
        None
    } else {
        Some((ni.last_heard as u64) * 1000)
    };
    let position = match &ni.position {
        Some(p) => Some(
            Position {
                latitude_i: zero_i32(p.latitude_i),
                longitude_i: zero_i32(p.longitude_i),
                altitude_m: Some(zero_i32(p.altitude)),
            },
        ),
        None => None,
    };
    Node {
        id: NodeId(ni.num),
        long_name,
        short_name,
        role,
        battery_level,
        voltage_v_bits,
        snr_db_bits: Some(ni.snr_bits),
        rssi_dbm: None,
        hops_away: Some(zero_u32(ni.hops_away) as u8),
        last_heard_ms,
        position,
        is_favorite: ni.is_favorite,
        is_ignored: ni.is_ignored,
    }
}

// ---------------------------------------------------------------------------
// Channels
// ---------------------------------------------------------------------------

/// The channel role a wire role stands for.
pub open spec fn channel_role_of(r: ChannelRoleWire) -> ChannelRole {
    match r {
        ChannelRoleWire::Primary => ChannelRole::Primary,
        ChannelRoleWire::Secondary => ChannelRole::Secondary,
        ChannelRoleWire::Disabled => ChannelRole::Disabled,
    }
}

/// `c` is the channel the radio's report `ch` describes (the slot number is
/// the low byte of the reported index).
pub open spec fn channel_from_msg(ch: ChannelMsg, c: Channel) -> bool {
    &&& c.index.value() == (ch.index as u8)
    &&& c.role == channel_role_of(ChannelRoleWire::of_wire(ch.role))
    &&& match ch.settings {
        Some(s) => {
            &&& c.name@ == s.name@
            &&& c.psk@ == s.psk@
            &&& c.uplink_enabled == s.uplink_enabled
            &&& c.downlink_enabled == s.downlink_enabled
            &&& c.position_precision == match s.module_settings {
                Some(m) => m.position_precision,
                None => 0,
            }
        },
        None => c.name@.len() == 0 && c.psk@.len() == 0 && !c.uplink_enabled
            && !c.downlink_enabled && c.position_precision == 0,
    }
}

/// The fragments a channel report becomes: one channel fragment, or none when
/// the slot number is out of range.
pub open spec fn channel_fragments_ok(ch: ChannelMsg, r: Seq<HandshakeFragment>) -> bool {
    if (ch.index as u8) > 7 {
        r.len() == 0
    } else {
        r.len() == 1 && (r[0] matches HandshakeFragment::Channel(c) && channel_from_msg(ch, c))
    }
}

/// A channel report keeps the radio's role for the slot: wire role 1 is the
/// primary channel, 2 a secondary one, and 0 (what the radio sends for an
/// unused slot) or any unknown number a disabled one.
pub proof fn lemma_channel_report_role(ch: ChannelMsg, r: Seq<HandshakeFragment>)
    requires
        channel_fragments_ok(ch, r),
        (ch.index as u8) <= 7,
    ensures
        r.len() == 1,
        r[0] matches HandshakeFragment::Channel(c) && {
            &&& (c.role == ChannelRole::Primary <==> ch.role == 1)
            &&& (c.role == ChannelRole::Secondary <==> ch.role == 2)
            &&& (c.role == ChannelRole::Disabled <==> (ch.role != 1 && ch.role != 2))
            &&& c.index.value() == ch.index as u8
        },
{
}

/// The fragments a channel report from the radio becomes.
pub fn channel_to_domain(ch: ChannelMsg) -> (r: Vec<HandshakeFragment>)
    ensures
        channel_fragments_ok(ch, r@),
{
    channel_fragments(ch)
}

fn channel_fragments(ch: ChannelMsg) -> (r: Vec<HandshakeFragment>)
    ensures
        channel_fragments_ok(ch, r@),
{
    let mut out: Vec<HandshakeFragment> = Vec::new();
    let index = match ChannelIndex::new(ch.index as u8) {
        Some(i) => i,
        None => {
            return out;
        },
    };
    let role = match ChannelRoleWire::from_wire(ch.role) {
        ChannelRoleWire::Primary => ChannelRole::Primary,
        ChannelRoleWire::Secondary => ChannelRole::Secondary,
        ChannelRoleWire::Disabled => ChannelRole::Disabled,
    };
    let channel = match ch.settings {
        Some(s) => {
            let precision: u32 = match s.module_settings {
                Some(m) => m.position_precision,
                None => 0,
            };
            Channel {
                index,
                role,
                name: s.name,
                psk: s.psk,
                uplink_enabled: s.uplink_enabled,
                downlink_enabled: s.downlink_enabled,
                position_precision: precision,
            }
        },
        None => Channel {
            index,
            role,
            name: String::new(),
            psk: Vec::new(),
            uplink_enabled: false,
            downlink_enabled: false,
            position_precision: 0,
        },
    };
    out.push(HandshakeFragment::Channel(channel));
    out
}

// ---------------------------------------------------------------------------
// Packets
// ---------------------------------------------------------------------------

/// Reception time in milliseconds since the Unix epoch: the radio's stamp
/// (seconds), or `now_ms` when the radio gave none.
pub open spec fn packet_time_spec(rx_time_secs: u32, now_ms: u64) -> u64 {
    if rx_time_secs == 0 {
        now_ms
    } else {
        (rx_time_secs * 1000) as u64
    }
}

/// Reception time of a packet: the radio's stamp, or `now_ms` without one.
pub fn packet_time(rx_time_secs: u32, now_ms: u64) -> (r: u64)
    ensures
        r == packet_time_spec(rx_time_secs, now_ms),
{
    if rx_time_secs == 0 {
        now_ms
    } else {
        (rx_time_secs as u64) * 1000
    }
}

/// The channel slot a packet was heard on (slot 0 when out of range).
pub open spec fn packet_slot(channel: u32) -> u8 {
    if (channel as u8) <= 7 {
        channel as u8
    } else {
        0
    }
}

/// The recipient a packet's destination number stands for.
pub open spec fn recipient_of(to: u32) -> Recipient {
    if to == BROADCAST_NUM {
        Recipient::Broadcast
    } else {
        Recipient::Node(NodeId(to))
    }
}

/// `m` is the incoming text message that packet `p` with text `text` becomes.
pub open spec fn message_from_packet(p: MeshPacket, text: Seq<char>, now_ms: u64, m: TextMessage) -> bool {
    &&& m.id == PacketId(p.id)
    &&& m.channel.value() == packet_slot(p.channel)
    &&& m.from == NodeId(p.from)
    &&& m.to == recipient_of(p.to)
    &&& m.text@ == text
    &&& m.received_at_ms == packet_time_spec(p.rx_time, now_ms)
    &&& m.direction == Direction::Incoming
    &&& m.state == DeliveryState::Acked
}

/// The fragments a mesh packet becomes: a received text message when it is a
/// decoded UTF-8 text packet, else none.
pub open spec fn packet_fragments_ok(p: MeshPacket, now_ms: u64, r: Seq<HandshakeFragment>) -> bool {
    match p.decoded {
        Some(d) => if d.portnum == TEXT_MESSAGE_APP && valid_utf8(d.payload@) {
            r.len() == 1 && (r[0] matches HandshakeFragment::Message(m) && message_from_packet(
                p,
                decode_utf8(d.payload@),
                now_ms,
                m,
            ))
        } else {
            r.len() == 0
        },
        None => r.len() == 0,
    }
}

/// The slot a packet was heard on.
pub fn packet_channel(channel: u32) -> (r: ChannelIndex)
    ensures
        r.value() == packet_slot(channel),
{
    match ChannelIndex::new(channel as u8) {
        Some(c) => c,
        None => ChannelIndex::primary(),
    }
}

/// The recipient a destination number stands for.
pub fn recipient_from(to: u32) -> (r: Recipient)
    ensures
        r == recipient_of(to),
{
    if to == BROADCAST_NUM {
        Recipient::Broadcast
    } else {
        Recipient::Node(NodeId(to))
    }
}

fn packet_fragments(p: MeshPacket, now_ms: u64) -> (r: Vec<HandshakeFragment>)
    ensures
        packet_fragments_ok(p, now_ms, r@),
{
    let mut out: Vec<HandshakeFragment> = Vec::new();
    let data = match &p.decoded {
        Some(d) => d,
        None => {
            return out;
        },
    };
    let payload = match parse(data.portnum, data.payload.as_slice()) {
        Ok(pl) => pl,
        Err(_) => {
            return out;
        },
    };
    match payload {
        PortPayload::Text(text) => {
            out.push(
                HandshakeFragment::Message(
                    TextMessage {
                        id: PacketId(p.id),
                        channel: packet_channel(p.channel),
                        from: NodeId(p.from),
                        to: recipient_from(p.to),
                        text,
                        received_at_ms: packet_time(p.rx_time, now_ms),
                        direction: Direction::Incoming,
                        state: DeliveryState::Acked,
                    },
                ),
            );
        },
        _ => {},
    }
    out
}

// ---------------------------------------------------------------------------
// FromRadio
// ---------------------------------------------------------------------------

/// The fragments a message from the radio becomes. `now_ms` stamps text
/// packets that carry no reception time.
pub open spec fn fragments_ok(msg: FromRadio, now_ms: u64, r: Seq<HandshakeFragment>) -> bool {
    match msg.payload_variant {
        Some(FromRadioPayload::MyInfo(info)) => r == seq![
            HandshakeFragment::MyNode { id: NodeId(info.my_node_num) },
        ],
        Some(FromRadioPayload::NodeInfo(ni)) => r.len() == 1 && (r[0] matches HandshakeFragment::Node(
            n,
        ) && node_from_info(ni, n)),
        Some(FromRadioPayload::Channel(ch)) => channel_fragments_ok(ch, r),
        Some(FromRadioPayload::Metadata { firmware_version }) => r == seq![
            HandshakeFragment::Firmware(firmware_version),
        ],
        Some(FromRadioPayload::Config(cfg)) => config_fragments_ok(cfg, r),
        Some(FromRadioPayload::ConfigCompleteId(id)) => r == seq![
            HandshakeFragment::ConfigComplete { id: ConfigId(id) },
        ],
        Some(FromRadioPayload::Packet(p)) => packet_fragments_ok(p, now_ms, r),
        _ => r.len() == 0,
    }
}

/// Turns one message from the radio into the fragments the session state
/// machine consumes.
pub fn fragments_from_radio(msg: FromRadio, now_ms: u64) -> (r: Vec<HandshakeFragment>)
    ensures
        fragments_ok(msg, now_ms, r@),
{
    let mut out: Vec<HandshakeFragment> = Vec::new();
    let variant = match msg.payload_variant {
        Some(v) => v,
        None => {
            return out;
        },
    };
    match variant {
        FromRadioPayload::MyInfo(info) => {
            out.push(HandshakeFragment::MyNode { id: NodeId(info.my_node_num) });
            out
        },
        FromRadioPayload::NodeInfo(ni) => {
            out.push(HandshakeFragment::Node(node_from_proto(&ni)));
            out
        },
        FromRadioPayload::Channel(ch) => channel_fragments(ch),
        FromRadioPayload::Metadata { firmware_version } => {
            out.push(HandshakeFragment::Firmware(firmware_version));
            out
        },
        FromRadioPayload::Config(cfg) => config_fragments(cfg),
        FromRadioPayload::ConfigCompleteId(id) => {
            out.push(HandshakeFragment::ConfigComplete { id: ConfigId(id) });
            out
        },
        FromRadioPayload::Packet(p) => packet_fragments(p, now_ms),
        FromRadioPayload::QueueStatus(_) => out,
        FromRadioPayload::Unused => out,
    }
}

} // verus!
