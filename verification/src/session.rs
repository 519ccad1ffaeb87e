pub mod commands;
pub mod handshake;

use vstd::prelude::*;

use std::collections::{HashMap, HashSet};

use crate::domain::channel::Channel;
use crate::domain::config::{
    BluetoothSettings, DeviceSettings, DisplaySettings, LoraSettings, NetworkSettings,
    PositionSettings, PowerSettings,
};
use crate::domain::config::{ClockFormat, ScreenOrientation};
use crate::domain::ids::{ChannelIndex, ConfigId, NodeId, PacketId, BROADCAST_NUM};
use crate::domain::message::{DeliveryState, Direction, Recipient, TextMessage};
use crate::domain::node::Node;
use crate::domain::profile::ConnectionProfile;
use crate::domain::session::HandshakeFragment;
use crate::domain::snapshot::{upsert_channel, upserted_channels, DeviceSnapshot};
use crate::domain::stats::{no_stats, MeshStats};
use crate::proto::meshtastic::{
    AdminPayload, BluetoothConfig, ConfigPayload, DeviceConfig, DeviceRole, DisplayConfig,
    DisplayUnits, FromRadio, FromRadioPayload, GpsMode, LoRaConfig, MeshPacket, ModemPreset,
    NetworkConfig, OutgoingData, OutgoingPacket, OutgoingPayload, OwnerUser, PairingMode,
    PositionConfig, PowerConfig, RebroadcastMode, RegionCode, ToRadio,
};
use crate::proto::schema::{message_fits, MsgKind};
use crate::proto::port::{
    parse, routing_spec, PortPayload, RoutingVariant, ADMIN_APP, ROUTING_APP, TEXT_MESSAGE_APP,
};
use crate::session::commands::Command;
use crate::session::handshake::{
    bluetooth_from_proto, bluetooth_of, channel_fragments_ok, channel_to_domain, device_from_proto,
    device_of, display_from_proto, display_of, lora_from_proto, lora_of, network_from_proto,
    network_of, node_from_info, node_from_proto, packet_channel, packet_slot, position_from_proto,
    position_of, power_from_proto, power_of, recipient_from, recipient_of,
};
use crate::text::{hex_digits, push_hex, push_signed_decimal, signed_decimal, string_of};
use vstd::slice::slice_to_vec;
use vstd::utf8::{decode_utf8, encode_utf8, valid_utf8};

verus! {

broadcast use vstd::std_specs::hash::group_hash_axioms;

/// Interval between keep-alive messages to the radio, in seconds.
pub const HEARTBEAT_INTERVAL_SECS: u64 = 300;
/// How long a direct message may wait for its acknowledgement, in seconds.
pub const ACK_TIMEOUT_SECS: u64 = 30;
/// How long to wait for the radio to say which node it is, in seconds.
pub const MY_INFO_TIMEOUT_SECS: u64 = 15;

/// What the session reports to the user interface.
#[derive(Debug)]
pub enum Event {
    Connecting,
    Connected(Box<DeviceSnapshot>),
    NodeUpdated(Node),
    ChannelUpdated(Channel),
    LoraUpdated(LoraSettings),
    DeviceUpdated(DeviceSettings),
    PositionUpdated(PositionSettings),
    PowerUpdated(PowerSettings),
    NetworkUpdated(NetworkSettings),
    DisplayUpdated(DisplaySettings),
    BluetoothUpdated(BluetoothSettings),
    MessageReceived(TextMessage),
    MessageStateChanged { id: PacketId, state: DeliveryState },
    Disconnected,
    Error(String),
}

/// What one message from a live radio amounts to.
#[derive(Debug)]
pub enum IncomingOutcome {
    /// Something to report as it is.
    Event(Event),
    /// The radio accepted packet `id` into its send queue.
    QueueOk(PacketId),
    /// Final outcome for packet `id`.
    Ack { id: PacketId, state: DeliveryState },
}

/// The text a queue rejection is reported with.
pub open spec fn queue_rejected_text(res: i32) -> Seq<char> {
    "device queue rejected ("@ + signed_decimal(res as int) + ")"@
}

/// The text a routing error is reported with.
pub open spec fn routing_error_text(code: i32) -> Seq<char> {
    "routing error "@ + signed_decimal(code as int)
}

/// The outcomes a mesh packet on a live link becomes: incoming text is
/// reported as received (stamped `now_ms`); a routing message about packet
/// `request_id` is its acknowledgement (error 0) or failure (other errors),
/// when it decodes as a routing message.
pub open spec fn packet_outcomes_ok(p: MeshPacket, now_ms: u64, r: Seq<IncomingOutcome>) -> bool {
    match p.decoded {
        Some(d) => if d.portnum == TEXT_MESSAGE_APP && valid_utf8(d.payload@) {
            r.len() == 1 && (r[0] matches IncomingOutcome::Event(Event::MessageReceived(m))
                && m.id == PacketId(p.id) && m.channel.value() == packet_slot(p.channel) && m.from
                == NodeId(p.from) && m.to == recipient_of(p.to) && m.text@ == decode_utf8(
                d.payload@,
            ) && m.received_at_ms == now_ms && m.direction == Direction::Incoming && m.state
                == DeliveryState::Acked)
        } else if d.portnum == ROUTING_APP {
            match routing_spec(d.payload@) {
                Some(rt) => if !message_fits(MsgKind::Routing, d.payload@) {
                    r.len() == 0
                } else {
                    match rt.variant {
                    Some(RoutingVariant::ErrorReason(code)) => r.len() == 1 && (
                    r[0] matches IncomingOutcome::Ack { id, state } && id == PacketId(
                        d.request_id,
                    ) && if code == 0 {
                        state == DeliveryState::Acked
                    } else {
                        state matches DeliveryState::Failed(why) && why@ == routing_error_text(
                            code,
                        )
                    }),
                        _ => r.len() == 0,
                    }
                },
                None => r.len() == 0,
            }
        } else {
            r.len() == 0
        },
        None => r.len() == 0,
    }
}

fn packet_outcomes(p: MeshPacket, now_ms: u64) -> (r: Vec<IncomingOutcome>)
    ensures
        packet_outcomes_ok(p, now_ms, r@),
{
    let mut out: Vec<IncomingOutcome> = Vec::new();
    let data = match &p.decoded {
        Some(d) => d,
        None => {
            return out;
        },
    };
    let request_id = data.request_id;
    let payload = match parse(data.portnum, data.payload.as_slice()) {
        Ok(pl) => pl,
        Err(_) => {
            return out;
        },
    };
    match payload {
        PortPayload::Text(text) => {
            out.push(
                IncomingOutcome::Event(
                    Event::MessageReceived(
                        TextMessage {
                            id: PacketId(p.id),
                            channel: packet_channel(p.channel),
                            from: NodeId(p.from),
                            to: recipient_from(p.to),
                            text,
                            received_at_ms: now_ms,
                            direction: Direction::Incoming,
                            state: DeliveryState::Acked,
                        },
                    ),
                ),
            );
        },
        PortPayload::Routing(rt) => {
            match rt.variant {
                Some(RoutingVariant::ErrorReason(code)) => {
                    let state = if code == 0 {
                        DeliveryState::Acked
                    } else {
                        let mut why = string_of("routing error ");
                        push_signed_decimal(&mut why, code as i64);
                        DeliveryState::Failed(why)
                    };
                    out.push(IncomingOutcome::Ack { id: PacketId(request_id), state });
                },
                _ => {},
            }
        },
        _ => {},
    }
    out
}

/// The events a configuration section from a live radio becomes.
pub open spec fn config_events_ok(cfg: Option<ConfigPayload>, r: Seq<IncomingOutcome>) -> bool {
    match cfg {
        Some(ConfigPayload::Lora(l)) => r == seq![
            IncomingOutcome::Event(Event::LoraUpdated(lora_of(l))),
        ],
        Some(ConfigPayload::Device(d)) => r == seq![
            IncomingOutcome::Event(Event::DeviceUpdated(device_of(d))),
        ],
        Some(ConfigPayload::Position(p)) => r == seq![
            IncomingOutcome::Event(Event::PositionUpdated(position_of(p))),
        ],
        Some(ConfigPayload::Power(p)) => r == seq![
            IncomingOutcome::Event(Event::PowerUpdated(power_of(p))),
        ],
        Some(ConfigPayload::Network(n)) => r == seq![
            IncomingOutcome::Event(Event::NetworkUpdated(network_of(n))),
        ],
        Some(ConfigPayload::Display(d)) => r == seq![
            IncomingOutcome::Event(Event::DisplayUpdated(display_of(d))),
        ],
        Some(ConfigPayload::Bluetooth(b)) => r == seq![
            IncomingOutcome::Event(Event::BluetoothUpdated(bluetooth_of(b))),
        ],
        _ => r.len() == 0,
    }
}

fn config_to_events(cfg: Option<ConfigPayload>) -> (r: Vec<IncomingOutcome>)
    ensures
        config_events_ok(cfg, r@),
{
    let mut out: Vec<IncomingOutcome> = Vec::new();
    match cfg {
        Some(ConfigPayload::Lora(l)) => out.push(
            IncomingOutcome::Event(Event::LoraUpdated(lora_from_proto(&l))),
        ),
        Some(ConfigPayload::Device(d)) => out.push(
            IncomingOutcome::Event(Event::DeviceUpdated(device_from_proto(&d))),
        ),
        Some(ConfigPayload::Position(p)) => out.push(
            IncomingOutcome::Event(Event::PositionUpdated(position_from_proto(&p))),
        ),
        Some(ConfigPayload::Power(p)) => out.push(
            IncomingOutcome::Event(Event::PowerUpdated(power_from_proto(&p))),
        ),
        Some(ConfigPayload::Network(n)) => out.push(
            IncomingOutcome::Event(Event::NetworkUpdated(network_from_proto(&n))),
        ),
        Some(ConfigPayload::Display(d)) => out.push(
            IncomingOutcome::Event(Event::DisplayUpdated(display_from_proto(&d))),
        ),
        Some(ConfigPayload::Bluetooth(b)) => out.push(
            IncomingOutcome::Event(Event::BluetoothUpdated(bluetooth_from_proto(&b))),
        ),
        _ => {},
    }
    assert(config_events_ok(cfg, out@)) by {
        match cfg {
            Some(ConfigPayload::Unused) => {},
            None => {},
            _ => {
                assert(out@.len() == 1);
            },
        }
    }
    out
}

/// The outcomes a message from a live radio becomes.
pub open spec fn incoming_outcomes_ok(msg: FromRadio, now_ms: u64, r: Seq<IncomingOutcome>) -> bool {
    match msg.payload_variant {
        Some(FromRadioPayload::Packet(p)) => packet_outcomes_ok(p, now_ms, r),
        Some(FromRadioPayload::NodeInfo(ni)) => r.len() == 1 && (
        r[0] matches IncomingOutcome::Event(Event::NodeUpdated(n)) && node_from_info(ni, n)),
        Some(FromRadioPayload::Channel(ch)) => if (ch.index as u8) > 7 {
            r.len() == 0
        } else {
            r.len() == 1 && (r[0] matches IncomingOutcome::Event(Event::ChannelUpdated(c))
                && crate::session::handshake::channel_from_msg(ch, c))
        },
        Some(FromRadioPayload::Config(cfg)) => config_events_ok(cfg, r),
        Some(FromRadioPayload::QueueStatus(qs)) => r.len() == 1 && if qs.res == 0 {
            r[0] == IncomingOutcome::QueueOk(PacketId(qs.mesh_packet_id))
        } else {
            r[0] matches IncomingOutcome::Ack { id, state } && id == PacketId(qs.mesh_packet_id)
                && (state matches DeliveryState::Failed(why) && why@ == queue_rejected_text(
                qs.res,
            ))
        },
        _ => r.len() == 0,
    }
}

/// Turns one message from a live radio into what the session reports.
/// `now_ms` stamps received text.
pub fn incoming_outcomes(msg: FromRadio, now_ms: u64) -> (r: Vec<IncomingOutcome>)
    ensures
        incoming_outcomes_ok(msg, now_ms, r@),
{
    let mut out: Vec<IncomingOutcome> = Vec::new();
    let variant = match msg.payload_variant {
        Some(v) => v,
        None => {
            return out;
        },
    };
    match variant {
        FromRadioPayload::Packet(p) => packet_outcomes(p, now_ms),
        FromRadioPayload::NodeInfo(ni) => {
            out.push(IncomingOutcome::Event(Event::NodeUpdated(node_from_proto(&ni))));
            out
        },
        FromRadioPayload::Channel(ch) => {
            let ghost msg_ch = ch;
            let mut frags = channel_to_domain(ch);
            if frags.len() == 1 {
                match frags.pop() {
                    Some(HandshakeFragment::Channel(c)) => {
                        out.push(IncomingOutcome::Event(Event::ChannelUpdated(c)));
                    },
                    _ => {},
                }
            }
            out
        },
        FromRadioPayload::Config(cfg) => config_to_events(cfg),
        FromRadioPayload::QueueStatus(qs) => {
            if qs.res == 0 {
                out.push(IncomingOutcome::QueueOk(PacketId(qs.mesh_packet_id)));
            } else {
                let mut why = string_of("device queue rejected (");
                push_signed_decimal(&mut why, qs.res as i64);
                why.append(")");
                out.push(
                    IncomingOutcome::Ack {
                        id: PacketId(qs.mesh_packet_id),
                        state: DeliveryState::Failed(why),
                    },
                );
            }
            out
        },
        _ => out,
    }
}

// ---------------------------------------------------------------------------
// Configuration sections written to the radio
// ---------------------------------------------------------------------------

/// The LoRa section that carries `s` (hop limit capped at 7).
pub open spec fn lora_config_of(s: LoraSettings) -> LoRaConfig {
    LoRaConfig {
        use_preset: s.use_preset,
        modem_preset: s.modem_preset.wire(),
        region: s.region.wire(),
        hop_limit: (if s.hop_limit < 7 { s.hop_limit } else { 7u8 }) as u32,
        tx_enabled: s.tx_enabled,
        tx_power: s.tx_power,
    }
}

/// Writes LoRa settings as a LoRa section; the hop limit is capped at 7.
pub fn lora_to_proto(s: &LoraSettings) -> (r: LoRaConfig)
    ensures
        r == lora_config_of(*s),
{
    let hop: u8 = if s.hop_limit < 7 { s.hop_limit } else { 7 };
    LoRaConfig {
        use_preset: s.use_preset,
        modem_preset: s.modem_preset.to_wire(),
        region: s.region.to_wire(),
        hop_limit: hop as u32,
        tx_enabled: s.tx_enabled,
        tx_power: s.tx_power,
    }
}

/// The device section that carries `s`.
pub open spec fn device_config_of(s: DeviceSettings) -> DeviceConfig {
    DeviceConfig {
        role: s.role.wire(),
        rebroadcast_mode: s.rebroadcast_mode.wire(),
        node_info_broadcast_secs: s.node_info_broadcast_secs,
        disable_triple_click: s.disable_triple_click,
        tzdef: s.tzdef,
        led_heartbeat_disabled: s.led_heartbeat_disabled,
    }
}

/// Writes device settings as a device section.
pub fn device_to_proto(s: &DeviceSettings) -> (r: DeviceConfig)
    ensures
        r == device_config_of(*s),
{
    DeviceConfig {
        role: s.role.to_wire(),
        rebroadcast_mode: s.rebroadcast_mode.to_wire(),
        node_info_broadcast_secs: s.node_info_broadcast_secs,
        disable_triple_click: s.disable_triple_click,
        tzdef: s.tzdef.clone(),
        led_heartbeat_disabled: s.led_heartbeat_disabled,
    }
}

/// The position section that carries `s`.
pub open spec fn position_config_of(s: PositionSettings) -> PositionConfig {
    PositionConfig {
        position_broadcast_secs: s.broadcast_secs,
        position_broadcast_smart_enabled: s.smart_enabled,
        fixed_position: s.fixed_position,
        gps_update_interval: s.gps_update_interval,
        gps_mode: s.gps_mode.wire(),
        broadcast_smart_minimum_distance: s.smart_min_distance_m,
        broadcast_smart_minimum_interval_secs: s.smart_min_interval_secs,
    }
}

/// Writes position settings as a position section.
pub fn position_to_proto(s: &PositionSettings) -> (r: PositionConfig)
    ensures
        r == position_config_of(*s),
{
    PositionConfig {
        position_broadcast_secs: s.broadcast_secs,
        position_broadcast_smart_enabled: s.smart_enabled,
        fixed_position: s.fixed_position,
        gps_update_interval: s.gps_update_interval,
        gps_mode: s.gps_mode.to_wire(),
        broadcast_smart_minimum_distance: s.smart_min_distance_m,
        broadcast_smart_minimum_interval_secs: s.smart_min_interval_secs,
    }
}

/// The power section that carries `s`.
pub open spec fn power_config_of(s: PowerSettings) -> PowerConfig {
    PowerConfig {
        is_power_saving: s.is_power_saving,
        on_battery_shutdown_after_secs: s.on_battery_shutdown_after_secs,
        wait_bluetooth_secs: s.wait_bluetooth_secs,
        ls_secs: s.ls_secs,
        min_wake_secs: s.min_wake_secs,
    }
}

/// Writes power settings as a power section.
pub fn power_to_proto(s: &PowerSettings) -> (r: PowerConfig)
    ensures
        r == power_config_of(*s),
{
    PowerConfig {
        is_power_saving: s.is_power_saving,
        on_battery_shutdown_after_secs: s.on_battery_shutdown_after_secs,
        wait_bluetooth_secs: s.wait_bluetooth_secs,
        ls_secs: s.ls_secs,
        min_wake_secs: s.min_wake_secs,
    }
}

/// The network section that carries `s`.
pub open spec fn network_config_of(s: NetworkSettings) -> NetworkConfig {
    NetworkConfig {
        wifi_enabled: s.wifi_enabled,
        wifi_ssid: s.wifi_ssid,
        wifi_psk: s.wifi_psk,
        ntp_server: s.ntp_server,
        eth_enabled: s.eth_enabled,
    }
}

/// Writes network settings as a network section.
pub fn network_to_proto(s: &NetworkSettings) -> (r: NetworkConfig)
    ensures
        r == network_config_of(*s),
{
    NetworkConfig {
        wifi_enabled: s.wifi_enabled,
        wifi_ssid: s.wifi_ssid.clone(),
        wifi_psk: s.wifi_psk.clone(),
        ntp_server: s.ntp_server.clone(),
        eth_enabled: s.eth_enabled,
    }
}

/// The display section that carries `s`.
pub open spec fn display_config_of(s: DisplaySettings) -> DisplayConfig {
    DisplayConfig {
        screen_on_secs: s.screen_on_secs,
        auto_screen_carousel_secs: s.auto_carousel_secs,
        flip_screen: s.orientation == ScreenOrientation::Flipped,
        units: s.units.wire(),
        use_12h_clock: s.clock == ClockFormat::H12,
        heading_bold: s.heading_bold,
        wake_on_tap_or_motion: s.wake_on_tap_or_motion,
    }
}

/// Writes display settings as a display section.
pub fn display_to_proto(s: &DisplaySettings) -> (r: DisplayConfig)
    ensures
        r == display_config_of(*s),
{
    DisplayConfig {
        screen_on_secs: s.screen_on_secs,
        auto_screen_carousel_secs: s.auto_carousel_secs,
        flip_screen: match s.orientation {
            ScreenOrientation::Flipped => true,
            ScreenOrientation::Normal => false,
        },
        units: s.units.to_wire(),
        use_12h_clock: match s.clock {
            ClockFormat::H12 => true,
            ClockFormat::H24 => false,
        },
        heading_bold: s.heading_bold,
        wake_on_tap_or_motion: s.wake_on_tap_or_motion,
    }
}

/// The Bluetooth section that carries `s`.
pub open spec fn bluetooth_config_of(s: BluetoothSettings) -> BluetoothConfig {
    BluetoothConfig { enabled: s.enabled, mode: s.mode.wire(), fixed_pin: s.fixed_pin }
}

/// Writes Bluetooth settings as a Bluetooth section.
pub fn bluetooth_to_proto(s: &BluetoothSettings) -> (r: BluetoothConfig)
    ensures
        r == bluetooth_config_of(*s),
{
    BluetoothConfig { enabled: s.enabled, mode: s.mode.to_wire(), fixed_pin: s.fixed_pin }
}

/// Settings written to the radio read back unchanged: for each section,
/// reading the section that carries `s` gives `s` again (for LoRa, when the
/// hop limit is within the cap of 7).
pub proof fn lemma_settings_read_back(
    lora: LoraSettings,
    device: DeviceSettings,
    position: PositionSettings,
    power: PowerSettings,
    network: NetworkSettings,
    display: DisplaySettings,
    bluetooth: BluetoothSettings,
)
    requires
        lora.hop_limit <= 7,
    ensures
        lora_of(lora_config_of(lora)) == lora,
        device_of(device_config_of(device)) == device,
        position_of(position_config_of(position)) == position,
        power_of(power_config_of(power)) == power,
        network_of(network_config_of(network)) == network,
        display_of(display_config_of(display)) == display,
        bluetooth_of(bluetooth_config_of(bluetooth)) == bluetooth,
{
    assert(RegionCode::of_wire(lora.region.wire()) == lora.region);
    assert(ModemPreset::of_wire(lora.modem_preset.wire()) == lora.modem_preset);
    assert(DeviceRole::of_wire(device.role.wire()) == device.role);
    assert(RebroadcastMode::of_wire(device.rebroadcast_mode.wire()) == device.rebroadcast_mode);
    assert(GpsMode::of_wire(position.gps_mode.wire()) == position.gps_mode);
    assert(DisplayUnits::of_wire(display.units.wire()) == display.units);
    assert(PairingMode::of_wire(bluetooth.mode.wire()) == bluetooth.mode);
}

// ---------------------------------------------------------------------------
// Messages to the radio
// ---------------------------------------------------------------------------

/// The node number a recipient is addressed by on the wire.
pub open spec fn recipient_num(to: Recipient) -> u32 {
    match to {
        Recipient::Broadcast => BROADCAST_NUM,
        Recipient::Node(n) => n.0,
    }
}

/// Whether a text asks the mesh for an acknowledgement: only a direct
/// message does, and only when the sender wants one.
pub open spec fn wire_want_ack(to: Recipient, want_ack: bool) -> bool {
    want_ack && to is Node
}

/// `r` is the packet that carries `text` to `to` on `channel` with id `id`.
pub open spec fn text_packet_ok(
    r: ToRadio,
    channel: ChannelIndex,
    to: Recipient,
    text: Seq<char>,
    want_ack: bool,
    id: u32,
) -> bool {
    &&& r matches ToRadio::Packet(p)
    &&& p.from == 0
    &&& p.to == recipient_num(to)
    &&& p.channel == channel.value() as u32
    &&& p.id == id
    &&& p.want_ack == wire_want_ack(to, want_ack)
    &&& p.decoded.portnum == TEXT_MESSAGE_APP
    &&& !p.decoded.want_response
    &&& p.decoded.payload matches OutgoingPayload::Text(b)
    &&& b@ == encode_utf8(text)
}

/// Builds the packet for one text message under a fresh random packet id,
/// which comes back with it.
pub fn text_packet(channel: ChannelIndex, to: Recipient, text: &str, want_ack: bool) -> (r: (
    PacketId,
    ToRadio,
))
    ensures
        r.0.0 >= 1,
        text_packet_ok(r.1, channel, to, text@, want_ack, r.0.0),
{
    let id = PacketId::random();
    let dest = match to {
        Recipient::Broadcast => BROADCAST_NUM,
        Recipient::Node(n) => n.0,
    };
    let is_dm = match to {
        Recipient::Node(_) => true,
        Recipient::Broadcast => false,
    };
    let bytes = slice_to_vec(text.as_bytes());
    let packet = OutgoingPacket {
        from: 0,
        to: dest,
        channel: channel.get() as u32,
        id: id.0,
        want_ack: want_ack && is_dm,
        decoded: OutgoingData {
            portnum: TEXT_MESSAGE_APP,
            want_response: false,
            payload: OutgoingPayload::Text(bytes),
        },
    };
    (id, ToRadio::Packet(packet))
}

/// `r` is the packet that carries the administrative request `admin` from
/// the client to its own radio `my_node`, with id `id`.
pub open spec fn admin_packet_ok(r: ToRadio, my_node: NodeId, admin: AdminPayload, id: u32) -> bool {
    r == ToRadio::Packet(
        OutgoingPacket {
            from: my_node.0,
            to: my_node.0,
            channel: 0,
            id,
            want_ack: true,
            decoded: OutgoingData {
                portnum: ADMIN_APP,
                want_response: true,
                payload: OutgoingPayload::Admin(admin),
            },
        },
    )
}

/// Builds the packet for an administrative request to the radio `my_node`
/// under a fresh random packet id, which comes back with it.
pub fn admin_packet(my_node: NodeId, admin: AdminPayload) -> (r: (PacketId, ToRadio))
    ensures
        r.0.0 >= 1,
        admin_packet_ok(r.1, my_node, admin, r.0.0),
{
    let id = PacketId::random();
    let r = ToRadio::Packet(
        OutgoingPacket {
            from: my_node.0,
            to: my_node.0,
            channel: 0,
            id: id.0,
            want_ack: true,
            decoded: OutgoingData {
                portnum: ADMIN_APP,
                want_response: true,
                payload: OutgoingPayload::Admin(admin),
            },
        },
    );
    (id, r)
}

/// The request asking the radio for its whole configuration, under a fresh
/// random nonce, which comes back with it.
pub fn want_config_request() -> (r: (ConfigId, ToRadio))
    ensures
        r.0.0 >= 1,
        r.1 == ToRadio::WantConfigId(r.0.0),
{
    let id = ConfigId::random();
    (id, ToRadio::WantConfigId(id.0))
}

/// The keep-alive message.
pub fn heartbeat() -> (r: ToRadio)
    ensures
        r == (ToRadio::Heartbeat { nonce: 0 }),
{
    ToRadio::Heartbeat { nonce: 0 }
}

/// The identity text of node `n`: `!` and its number in eight lower-case
/// hexadecimal digits.
pub open spec fn node_id_text(n: NodeId) -> Seq<char> {
    "!"@ + hex_digits(n.0 as nat, 8)
}

/// Renders the identity text of node `n`.
pub fn node_id_string(n: NodeId) -> (r: String)
    ensures
        r@ == node_id_text(n),
{
    let mut s = string_of("!");
    push_hex(&mut s, n.0 as u64, 8);
    s
}

/// `r` is the administrative request the command `cmd` becomes on the radio
/// `my_node`: renaming sets the owner (identity text, long and short names),
/// each settings command sets its configuration section; other commands
/// become none.
pub open spec fn command_admin_ok(cmd: Command, my_node: NodeId, r: Option<AdminPayload>) -> bool {
    match cmd {
        Command::SetOwner { long_name, short_name } => r matches Some(
            AdminPayload::SetOwner(u),
        ) && u.id@ == node_id_text(my_node) && u.long_name == long_name && u.short_name
            == short_name,
        Command::SetLora(s) => r == Some(
            AdminPayload::SetConfig(ConfigPayload::Lora(lora_config_of(s))),
        ),
        Command::SetDevice(s) => r == Some(
            AdminPayload::SetConfig(ConfigPayload::Device(device_config_of(s))),
        ),
        Command::SetPosition(s) => r == Some(
            AdminPayload::SetConfig(ConfigPayload::Position(position_config_of(s))),
        ),
        Command::SetPower(s) => r == Some(
            AdminPayload::SetConfig(ConfigPayload::Power(power_config_of(s))),
        ),
        Command::SetNetwork(s) => r == Some(
            AdminPayload::SetConfig(ConfigPayload::Network(network_config_of(s))),
        ),
        Command::SetDisplay(s) => r == Some(
            AdminPayload::SetConfig(ConfigPayload::Display(display_config_of(s))),
        ),
        Command::SetBluetooth(s) => r == Some(
            AdminPayload::SetConfig(ConfigPayload::Bluetooth(bluetooth_config_of(s))),
        ),
        _ => r is None,
    }
}

/// The administrative request a configuration command becomes on the radio
/// `my_node`, if it is one.
pub fn command_admin(cmd: Command, my_node: NodeId) -> (r: Option<AdminPayload>)
    ensures
        command_admin_ok(cmd, my_node, r),
{
    match cmd {
        Command::SetOwner { long_name, short_name } => Some(
            AdminPayload::SetOwner(OwnerUser { id: node_id_string(my_node), long_name, short_name }),
        ),
        Command::SetLora(s) => Some(AdminPayload::SetConfig(ConfigPayload::Lora(lora_to_proto(&s)))),
        Command::SetDevice(s) => Some(
            AdminPayload::SetConfig(ConfigPayload::Device(device_to_proto(&s))),
        ),
        Command::SetPosition(s) => Some(
            AdminPayload::SetConfig(ConfigPayload::Position(position_to_proto(&s))),
        ),
        Command::SetPower(s) => Some(
            AdminPayload::SetConfig(ConfigPayload::Power(power_to_proto(&s))),
        ),
        Command::SetNetwork(s) => Some(
            AdminPayload::SetConfig(ConfigPayload::Network(network_to_proto(&s))),
        ),
        Command::SetDisplay(s) => Some(
            AdminPayload::SetConfig(ConfigPayload::Display(display_to_proto(&s))),
        ),
        Command::SetBluetooth(s) => Some(
            AdminPayload::SetConfig(ConfigPayload::Bluetooth(bluetooth_to_proto(&s))),
        ),
        _ => None,
    }
}

// ---------------------------------------------------------------------------
// Packets waiting for their outcome
// ---------------------------------------------------------------------------

/// The numbers of the packets this session sent and whose outcome (an
/// acknowledgement, a failure, or a timeout) has not been reported yet.
pub struct PendingAcks {
    ids: HashSet<u32>,
}

impl View for PendingAcks {
    type V = Set<u32>;

    closed spec fn view(&self) -> Set<u32> {
        self.ids@
    }
}

/// The report that packet `id` reached `state`.
pub open spec fn state_changed(id: PacketId, state: DeliveryState) -> Event {
    Event::MessageStateChanged { id, state }
}

/// The text a packet that was never acknowledged fails with.
pub open spec fn no_ack_text() -> Seq<char> {
    "no ack"@
}

/// What the outcome `state` of packet `id` does to the pending set `p`: a
/// pending packet leaves the set and its outcome is reported; for any other
/// packet nothing happens.
pub open spec fn outcome_step(p: Set<u32>, id: PacketId, state: DeliveryState) -> (
    Set<u32>,
    Option<Event>,
) {
    if p.contains(id.0) {
        (p.remove(id.0), Some(state_changed(id, state)))
    } else {
        (p, None)
    }
}

/// The report a message from the radio gives, seen against the pending set
/// `p`, and what it does to the set: plain events pass through; the radio
/// queueing a pending packet reports it sent (it stays pending); a final
/// outcome goes through `outcome_step`.
pub open spec fn incoming_step(p: Set<u32>, o: IncomingOutcome) -> (Set<u32>, Option<Event>) {
    match o {
        IncomingOutcome::Event(e) => (p, Some(e)),
        IncomingOutcome::QueueOk(id) => if p.contains(id.0) {
            (p, Some(state_changed(id, DeliveryState::Sent)))
        } else {
            (p, None)
        },
        IncomingOutcome::Ack { id, state } => outcome_step(p, id, state),
    }
}

impl PendingAcks {
    /// No packet pending.
    pub fn new() -> (r: Self)
        ensures
            r@ == Set::<u32>::empty(),
    {
        PendingAcks { ids: HashSet::new() }
    }

    /// Whether packet `id` is pending.
    pub fn contains(&self, id: PacketId) -> (r: bool)
        ensures
            r == self@.contains(id.0),
    {
        self.ids.contains(&id.0)
    }

    /// Records that packet `id` was sent and waits for its outcome.
    pub fn track(&mut self, id: PacketId)
        ensures
            final(self)@ == old(self)@.insert(id.0),
    {
        let _ = self.ids.insert(id.0);
    }

    /// Handles the final outcome `state` of packet `id`.
    pub fn on_outcome(&mut self, id: PacketId, state: DeliveryState) -> (r: Option<Event>)
        ensures
            (final(self)@, r) == outcome_step(old(self)@, id, state),
    {
        if self.ids.remove(&id.0) {
            Some(Event::MessageStateChanged { id, state })
        } else {
            None
        }
    }

    /// Handles the acknowledgement timer of packet `id` running out: a
    /// pending packet leaves the set and fails with "no ack".
    pub fn on_ack_timeout(&mut self, id: PacketId) -> (r: Option<Event>)
        ensures
            final(self)@ == (if old(self)@.contains(id.0) {
                old(self)@.remove(id.0)
            } else {
                old(self)@
            }),
            r is Some <==> old(self)@.contains(id.0),
            r matches Some(e) ==> (e matches Event::MessageStateChanged {
                id: rid,
                state: DeliveryState::Failed(why),
            } && rid == id && why@ == no_ack_text()),
    {
        self.on_outcome(id, DeliveryState::Failed(string_of("no ack")))
    }

    /// Handles one outcome of a message from the radio.
    pub fn on_incoming(&mut self, o: IncomingOutcome) -> (r: Option<Event>)
        ensures
            (final(self)@, r) == incoming_step(old(self)@, o),
    {
        match o {
            IncomingOutcome::Event(e) => Some(e),
            IncomingOutcome::QueueOk(id) => {
                if self.ids.contains(&id.0) {
                    Some(Event::MessageStateChanged { id, state: DeliveryState::Sent })
                } else {
                    None
                }
            },
            IncomingOutcome::Ack { id, state } => self.on_outcome(id, state),
        }
    }
}

/// Every packet gets at most one final report: once an outcome of a pending
/// packet has been reported, a second outcome (or a timeout) for it reports
/// nothing, and a queue confirmation for it reports nothing either.
pub proof fn lemma_one_final_report(p: Set<u32>, id: PacketId, first: DeliveryState, second: DeliveryState)
    ensures
        outcome_step(outcome_step(p, id, first).0, id, second).1 is None,
        incoming_step(outcome_step(p, id, first).0, IncomingOutcome::QueueOk(id)).1 is None,
{
}

/// A packet that is tracked has its first outcome reported, and a queue
/// confirmation keeps it pending.
pub proof fn lemma_tracked_outcome_reported(p: Set<u32>, id: PacketId, state: DeliveryState)
    ensures
        outcome_step(p.insert(id.0), id, state).1 == Some(state_changed(id, state)),
        !outcome_step(p.insert(id.0), id, state).0.contains(id.0),
        incoming_step(p.insert(id.0), IncomingOutcome::QueueOk(id)) == (
        p.insert(id.0),
        Some(state_changed(id, DeliveryState::Sent)),
        ),
{
}

/// The report a direct message whose acknowledgement timer ran out gives,
/// whatever happened to it meanwhile.
pub fn no_ack_event(id: PacketId) -> (r: Event)
    ensures
        r matches Event::MessageStateChanged { id: rid, state: DeliveryState::Failed(why) } && rid
            == id && why@ == no_ack_text(),
{
    Event::MessageStateChanged { id, state: DeliveryState::Failed(string_of("no ack")) }
}

// ---------------------------------------------------------------------------
// Deciding what to do while the link is up
// ---------------------------------------------------------------------------

/// How the session loop goes on after a step.
#[derive(Debug)]
pub enum LoopStep {
    Continue,
    Disconnect,
    Error(String),
    Channel,
}

/// What the session loop does with one command from the user interface.
#[derive(Debug)]
pub enum CommandAction {
    /// Nothing to send; go on.
    Step(LoopStep),
    /// Report an event; go on.
    Report(Event),
    /// Send a text; once it is out, report it with `text_sent`, and start
    /// the acknowledgement timer when `arm_ack_timer` is set.
    SendText {
        id: PacketId,
        packet: ToRadio,
        channel: ChannelIndex,
        to: Recipient,
        text: String,
        arm_ack_timer: bool,
    },
    /// Send an administrative request.
    Send(ToRadio),
}

/// `r` is what the loop does with `cmd` on the radio `my_node`, with pending
/// set `p` before and `p2` after.
pub open spec fn command_action_ok(
    cmd: Command,
    my_node: NodeId,
    p: Set<u32>,
    r: CommandAction,
    p2: Set<u32>,
) -> bool {
    match cmd {
        Command::Connect(_) => r == CommandAction::Step(LoopStep::Continue) && p2 == p,
        Command::Disconnect => r == CommandAction::Step(LoopStep::Disconnect) && p2 == p,
        Command::SendText { channel, to, text, want_ack } => p2 == p && (r matches CommandAction::SendText {
            id,
            packet,
            channel: c,
            to: t,
            text: x,
            arm_ack_timer,
        } && id.0 >= 1 && text_packet_ok(packet, channel, to, text@, want_ack, id.0) && c == channel
            && t == to && x == text && arm_ack_timer == (to is Node)),
        Command::AckTimeout(id) => if p.contains(id.0) {
            p2 == p.remove(id.0) && (r matches CommandAction::Report(
                Event::MessageStateChanged { id: rid, state: DeliveryState::Failed(why) },
            ) && rid == id && why@ == no_ack_text())
        } else {
            p2 == p && r == CommandAction::Step(LoopStep::Continue)
        },
        _ => p2 == p && match r {
            CommandAction::Send(packet) => exists|a: AdminPayload, id: u32|
                command_admin_ok(cmd, my_node, Some(a)) && id >= 1 && #[trigger] admin_packet_ok(
                    packet,
                    my_node,
                    a,
                    id,
                ),
            CommandAction::Step(LoopStep::Continue) => command_admin_ok(cmd, my_node, None),
            _ => false,
        },
    }
}

/// Decides what the session loop does with one command while connected to
/// the radio `my_node`. Connecting again is ignored; a text is sent with the
/// mesh asked for an acknowledgement only for a wanted direct message; an
/// acknowledgement timeout fails a packet still pending; settings and
/// renaming become administrative requests; the remaining commands are
/// ignored.
pub fn on_command(cmd: Command, my_node: NodeId, pending: &mut PendingAcks) -> (r: CommandAction)
    ensures
        command_action_ok(cmd, my_node, old(pending)@, r, final(pending)@),
{
    match cmd {
        Command::Connect(_) => CommandAction::Step(LoopStep::Continue),
        Command::Disconnect => CommandAction::Step(LoopStep::Disconnect),
        Command::SendText { channel, to, text, want_ack } => {
            let (id, packet) = text_packet(channel, to, text.as_str(), want_ack);
            let arm = match to {
                Recipient::Node(_) => true,
                Recipient::Broadcast => false,
            };
            CommandAction::SendText { id, packet, channel, to, text, arm_ack_timer: arm }
        },
        Command::AckTimeout(id) => {
            match pending.on_ack_timeout(id) {
                Some(ev) => CommandAction::Report(ev),
                None => CommandAction::Step(LoopStep::Continue),
            }
        },
        other => {
            match command_admin(other, my_node) {
                Some(admin) => {
                    let ghost a = admin;
                    let (id, packet) = admin_packet(my_node, admin);
                    assert(admin_packet_ok(packet, my_node, a, id.0));
                    CommandAction::Send(packet)
                },
                None => CommandAction::Step(LoopStep::Continue),
            }
        },
    }
}

/// `e` reports the text `text` that the radio `my_node` sent as packet `id`
/// to `to` on `channel` at `now_ms`, queued for delivery.
pub open spec fn sent_text_event(
    e: Event,
    id: PacketId,
    channel: ChannelIndex,
    to: Recipient,
    text: String,
    my_node: NodeId,
    now_ms: u64,
) -> bool {
    e == Event::MessageReceived(
        TextMessage {
            id,
            channel,
            from: my_node,
            to,
            text,
            received_at_ms: now_ms,
            direction: Direction::Outgoing,
            state: DeliveryState::Queued,
        },
    )
}

impl PendingAcks {
    /// Records a text that went out as packet `id` and gives its report.
    pub fn text_sent(
        &mut self,
        id: PacketId,
        channel: ChannelIndex,
        to: Recipient,
        text: String,
        my_node: NodeId,
        now_ms: u64,
    ) -> (r: Event)
        ensures
            final(self)@ == old(self)@.insert(id.0),
            sent_text_event(r, id, channel, to, text, my_node, now_ms),
    {
        self.track(id);
        Event::MessageReceived(
            TextMessage {
                id,
                channel,
                from: my_node,
                to,
                text,
                received_at_ms: now_ms,
                direction: Direction::Outgoing,
                state: DeliveryState::Queued,
            },
        )
    }
}

/// Whether a command that arrives while the link is still being opened
/// abandons it: a disconnect, or the command channel closing (`None`).
/// Anything else is ignored until the link is up.
pub fn cancels_connect(cmd: &Option<Command>) -> (r: bool)
    ensures
        r == (cmd is None || cmd matches Some(Command::Disconnect)),
{
    match cmd {
        None => true,
        Some(Command::Disconnect) => true,
        Some(_) => false,
    }
}

/// The profile to connect to, when an idle session receives `cmd`: only a
/// connect command starts a connection.
pub fn connect_target(cmd: Command) -> (r: Option<ConnectionProfile>)
    ensures
        match cmd {
            Command::Connect(p) => r == Some(p),
            _ => r is None,
        },
{
    match cmd {
        Command::Connect(p) => Some(p),
        _ => None,
    }
}

// ---------------------------------------------------------------------------
// Gathering the radio's state before it says which node it is
// ---------------------------------------------------------------------------

/// What a live session has learnt from the radio while waiting for it to say
/// which node it is.
#[derive(Debug)]
pub struct InitAcc {
    pub my_node: Option<NodeId>,
    pub firmware: String,
    pub nodes: HashMap<u32, Node>,
    pub channels: Vec<Channel>,
    pub lora: Option<LoraSettings>,
    pub device: Option<DeviceSettings>,
    pub position: Option<PositionSettings>,
    pub power: Option<PowerSettings>,
    pub network: Option<NetworkSettings>,
    pub display: Option<DisplaySettings>,
    pub bluetooth: Option<BluetoothSettings>,
    pub messages: Vec<TextMessage>,
}

/// `b` is `a` after taking in the fragment `f`: each piece of information is
/// recorded (a node under its number, a channel in its slot, a message at the
/// end); completion, delivery states and metrics change nothing.
pub open spec fn init_applied(a: InitAcc, f: HandshakeFragment, b: InitAcc) -> bool {
    match f {
        HandshakeFragment::MyNode { id } => b == (InitAcc { my_node: Some(id), ..a }),
        HandshakeFragment::Firmware(v) => b == (InitAcc { firmware: v, ..a }),
        HandshakeFragment::Node(n) => b.nodes@ == a.nodes@.insert(n.id.0, n) && b == (InitAcc {
            nodes: b.nodes,
            ..a
        }),
        HandshakeFragment::Channel(c) => b.channels@ == upserted_channels(a.channels@, c) && b == (
        InitAcc { channels: b.channels, ..a }),
        HandshakeFragment::Lora(x) => b == (InitAcc { lora: Some(x), ..a }),
        HandshakeFragment::Device(x) => b == (InitAcc { device: Some(x), ..a }),
        HandshakeFragment::Position(x) => b == (InitAcc { position: Some(x), ..a }),
        HandshakeFragment::Power(x) => b == (InitAcc { power: Some(x), ..a }),
        HandshakeFragment::Network(x) => b == (InitAcc { network: Some(x), ..a }),
        HandshakeFragment::Display(x) => b == (InitAcc { display: Some(x), ..a }),
        HandshakeFragment::Bluetooth(x) => b == (InitAcc { bluetooth: Some(x), ..a }),
        HandshakeFragment::Message(m) => b.messages@ == a.messages@.push(m) && b == (InitAcc {
            messages: b.messages,
            ..a
        }),
        _ => b == a,
    }
}

/// `snap` is the snapshot `a` becomes for the radio `me`: its names are those
/// of the radio's own node record (empty when there is none) and everything
/// else is carried over, with no statistics yet.
pub open spec fn init_snapshot_of(a: InitAcc, me: NodeId, snap: DeviceSnapshot) -> bool {
    &&& snap.my_node == me
    &&& if a.nodes@.contains_key(me.0) {
        snap.short_name == a.nodes@[me.0].short_name && snap.long_name == a.nodes@[me.0].long_name
    } else {
        snap.short_name@.len() == 0 && snap.long_name@.len() == 0
    }
    &&& snap.firmware_version == a.firmware
    &&& snap.nodes == a.nodes
    &&& snap.channels == a.channels
    &&& snap.messages == a.messages
    &&& snap.lora == a.lora
    &&& snap.device == a.device
    &&& snap.position == a.position
    &&& snap.power == a.power
    &&& snap.network == a.network
    &&& snap.display == a.display
    &&& snap.bluetooth == a.bluetooth
    &&& snap.stats == no_stats()
}

impl InitAcc {
    /// Nothing learnt yet.
    pub fn new() -> (r: Self)
        ensures
            r.my_node is None,
            r.firmware@.len() == 0,
            r.nodes@.is_empty(),
            r.channels@.len() == 0,
            r.lora is None && r.device is None && r.position is None && r.power is None
                && r.network is None && r.display is None && r.bluetooth is None,
            r.messages@.len() == 0,
    {
        InitAcc {
            my_node: None,
            firmware: String::new(),
            nodes: HashMap::new(),
            channels: Vec::new(),
            lora: None,
            device: None,
            position: None,
            power: None,
            network: None,
            display: None,
            bluetooth: None,
            messages: Vec::new(),
        }
    }

    /// Takes in one fragment of information from the radio.
    pub fn apply(&mut self, fragment: HandshakeFragment)
        ensures
            init_applied(*old(self), fragment, *final(self)),
    {
        match fragment {
            HandshakeFragment::MyNode { id } => self.my_node = Some(id),
            HandshakeFragment::Firmware(v) => self.firmware = v,
            HandshakeFragment::Node(node) => {
                let _ = self.nodes.insert(node.id.0, node);
            },
            HandshakeFragment::Channel(ch) => upsert_channel(&mut self.channels, ch),
            HandshakeFragment::Lora(x) => self.lora = Some(x),
            HandshakeFragment::Device(x) => self.device = Some(x),
            HandshakeFragment::Position(x) => self.position = Some(x),
            HandshakeFragment::Power(x) => self.power = Some(x),
            HandshakeFragment::Network(x) => self.network = Some(x),
            HandshakeFragment::Display(x) => self.display = Some(x),
            HandshakeFragment::Bluetooth(x) => self.bluetooth = Some(x),
            HandshakeFragment::Message(m) => self.messages.push(m),
            HandshakeFragment::ConfigComplete { .. }
            | HandshakeFragment::MessageStateChanged { .. }
            | HandshakeFragment::NodeMetric { .. } => {},
        }
    }

    /// The snapshot the gathered information becomes for the radio `my_node`.
    pub fn into_snapshot(self, my_node: NodeId) -> (r: DeviceSnapshot)
        ensures
            init_snapshot_of(self, my_node, r),
    {
        let (short_name, long_name) = match self.nodes.get(&my_node.0) {
            Some(n) => (n.short_name.clone(), n.long_name.clone()),
            None => (String::new(), String::new()),
        };
        DeviceSnapshot {
            my_node,
            short_name,
            long_name,
            firmware_version: self.firmware,
            nodes: self.nodes,
            channels: self.channels,
            messages: self.messages,
            lora: self.lora,
            device: self.device,
            position: self.position,
            power: self.power,
            network: self.network,
            display: self.display,
            bluetooth: self.bluetooth,
            stats: MeshStats::default(),
        }
    }
}

} // verus!
