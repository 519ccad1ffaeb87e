use vstd::prelude::*;

use std::collections::HashMap;

use crate::domain::channel::Channel;
use crate::domain::config::{
    BluetoothSettings, DeviceSettings, DisplaySettings, LoraSettings, NetworkSettings,
    PositionSettings, PowerSettings,
};
use crate::domain::ids::{ConfigId, NodeId, PacketId};
use crate::domain::message::{DeliveryState, TextMessage};
use crate::domain::node::Node;
use crate::domain::profile::TransportKind;
use crate::domain::snapshot::{upsert_channel, upserted_channels, DeviceSnapshot};
use crate::domain::stats::{no_stats, MeshStats};

verus! {

broadcast use vstd::std_specs::hash::group_hash_axioms;

/// Where a session with a radio stands. `started_ms` is a monotonic clock
/// reading in milliseconds.
#[derive(Debug)]
pub enum SessionState {
    Disconnected,
    Connecting { transport: TransportKind, started_ms: u64 },
    Handshake(HandshakeAcc),
    Ready(DeviceSnapshot),
    Failed { reason: String },
}

/// What has been learnt so far while the radio streams its configuration.
#[derive(Debug)]
pub struct HandshakeAcc {
    pub transport: TransportKind,
    pub config_id: ConfigId,
    pub my_node: Option<NodeId>,
    pub short_name: String,
    pub long_name: String,
    pub firmware: String,
    pub nodes: HashMap<u32, Node>,
    pub channels: Vec<Channel>,
    pub lora: Option<LoraSettings>,
    pub device: Option<DeviceSettings>,
    pub position: Option<PositionSettings>,
    pub power: Option<PowerSettings>,
    pub network: Option<NetworkSettings>,
    pub display: Option<DisplaySettings>,
    pub bluetooth: Option<BluetoothSettings>,
}

/// The state right after asking the radio (with nonce `config_id`) for its
/// configuration: nothing learnt yet.
pub fn start_handshake(transport: TransportKind, config_id: ConfigId) -> (r: SessionState)
    ensures
        r matches SessionState::Handshake(acc) && acc.transport == transport && acc.config_id
            == config_id && acc.my_node is None && acc.short_name@.len() == 0
            && acc.long_name@.len() == 0 && acc.firmware@.len() == 0 && acc.nodes@.is_empty()
            && acc.channels@.len() == 0 && acc.lora is None && acc.device is None
            && acc.position is None && acc.power is None && acc.network is None
            && acc.display is None && acc.bluetooth is None,
{
    SessionState::Handshake(
        HandshakeAcc {
            transport,
            config_id,
            my_node: None,
            short_name: String::new(),
            long_name: String::new(),
            firmware: String::new(),
            nodes: HashMap::new(),
            channels: Vec::new(),
            lora: None,
            device: None,
            position: None,
            power: None,
            network: None,
            display: None,
            bluetooth: None,
        },
    )
}

/// One piece of information from the radio.
#[allow(inconsistent_fields)]
#[derive(Debug)]
pub enum HandshakeFragment {
    MyNode { id: NodeId },
    Firmware(String),
    Node(Node),
    Channel(Channel),
    Lora(LoraSettings),
    Device(DeviceSettings),
    Position(PositionSettings),
    Power(PowerSettings),
    Network(NetworkSettings),
    Display(DisplaySettings),
    Bluetooth(BluetoothSettings),
    ConfigComplete { id: ConfigId },
    Message(TextMessage),
    MessageStateChanged { id: PacketId, state: DeliveryState },
    NodeMetric { id: NodeId, update: NodeMetric },
}

/// A single fresh reading for a node. Voltage (V) and SNR (dB) are 32-bit
/// floating-point numbers kept as their IEEE-754 bit patterns.
#[derive(Copy, Clone, Debug, PartialEq, Eq, Structural)]
pub enum NodeMetric {
    Battery(u8),
    Voltage(u32),
    Snr(u32),
    Rssi(i32),
}

/// `n` with the reading `m` recorded.
pub open spec fn with_metric(n: Node, m: NodeMetric) -> Node {
    match m {
        NodeMetric::Battery(b) => Node { battery_level: Some(b), ..n },
        NodeMetric::Voltage(v) => Node { voltage_v_bits: Some(v), ..n },
        NodeMetric::Snr(s) => Node { snr_db_bits: Some(s), ..n },
        NodeMetric::Rssi(r) => Node { rssi_dbm: Some(r), ..n },
    }
}

/// The names the snapshot takes: those the radio's own node record carries,
/// when it carries any, else those gathered during the handshake.
pub open spec fn ready_names(acc: HandshakeAcc, me: NodeId) -> (String, String) {
    if acc.nodes@.contains_key(me.0) && (acc.nodes@[me.0].short_name@.len() > 0
        || acc.nodes@[me.0].long_name@.len() > 0) {
        (acc.nodes@[me.0].short_name, acc.nodes@[me.0].long_name)
    } else {
        (acc.short_name, acc.long_name)
    }
}

/// `snap` is the snapshot a completed handshake `acc` becomes.
pub open spec fn snapshot_of(acc: HandshakeAcc, snap: DeviceSnapshot) -> bool {
    &&& acc.my_node matches Some(me)
    &&& snap.my_node == me
    &&& (snap.short_name, snap.long_name) == ready_names(acc, me)
    &&& snap.firmware_version == acc.firmware
    &&& snap.nodes == acc.nodes
    &&& snap.channels == acc.channels
    &&& snap.messages@.len() == 0
    &&& snap.lora == acc.lora
    &&& snap.device == acc.device
    &&& snap.position == acc.position
    &&& snap.power == acc.power
    &&& snap.network == acc.network
    &&& snap.display == acc.display
    &&& snap.bluetooth == acc.bluetooth
    &&& snap.stats == no_stats()
}

/// What one fragment does to a handshake in progress (`r` is the new state).
pub open spec fn handshake_next(acc: HandshakeAcc, e: HandshakeFragment, r: SessionState) -> bool {
    match e {
        HandshakeFragment::MyNode { id } => r == SessionState::Handshake(
            HandshakeAcc { my_node: Some(id), ..acc },
        ),
        HandshakeFragment::Firmware(v) => r == SessionState::Handshake(
            HandshakeAcc { firmware: v, ..acc },
        ),
        HandshakeFragment::Node(n) => r matches SessionState::Handshake(a) && a.nodes@
            == acc.nodes@.insert(n.id.0, n) && a == (HandshakeAcc { nodes: a.nodes, ..acc }),
        HandshakeFragment::Channel(c) => r matches SessionState::Handshake(a) && a.channels@
            == upserted_channels(acc.channels@, c) && a == (HandshakeAcc {
            channels: a.channels,
            ..acc
        }),
        HandshakeFragment::Lora(s) => r == SessionState::Handshake(
            HandshakeAcc { lora: Some(s), ..acc },
        ),
        HandshakeFragment::Device(s) => r == SessionState::Handshake(
            HandshakeAcc { device: Some(s), ..acc },
        ),
        HandshakeFragment::Position(s) => r == SessionState::Handshake(
            HandshakeAcc { position: Some(s), ..acc },
        ),
        HandshakeFragment::Power(s) => r == SessionState::Handshake(
            HandshakeAcc { power: Some(s), ..acc },
        ),
        HandshakeFragment::Network(s) => r == SessionState::Handshake(
            HandshakeAcc { network: Some(s), ..acc },
        ),
        HandshakeFragment::Display(s) => r == SessionState::Handshake(
            HandshakeAcc { display: Some(s), ..acc },
        ),
        HandshakeFragment::Bluetooth(s) => r == SessionState::Handshake(
            HandshakeAcc { bluetooth: Some(s), ..acc },
        ),
        HandshakeFragment::ConfigComplete { id } => if id == acc.config_id && acc.my_node is Some {
            r matches SessionState::Ready(snap) && snapshot_of(acc, snap)
        } else {
            r == SessionState::Handshake(acc)
        },
        _ => r == SessionState::Handshake(acc),
    }
}

/// Position of the first message at or after `from` with packet id `id`, or -1.
pub open spec fn first_message_with_id(ms: Seq<TextMessage>, id: PacketId, from: int) -> int
    decreases ms.len() - from,
{
    if from < 0 || from >= ms.len() {
        -1
    } else if ms[from].id == id {
        from
    } else {
        first_message_with_id(ms, id, from + 1)
    }
}

/// The messages after the first one with packet id `id` takes state `s`.
pub open spec fn with_message_state(ms: Seq<TextMessage>, id: PacketId, s: DeliveryState) -> Seq<
    TextMessage,
> {
    let i = first_message_with_id(ms, id, 0);
    if i < 0 {
        ms
    } else {
        ms.update(i, TextMessage { state: s, ..ms[i] })
    }
}

/// The roster after recording reading `m` for node `id` (unknown nodes are
/// not added).
pub open spec fn with_node_metric(nodes: Map<u32, Node>, id: NodeId, m: NodeMetric) -> Map<
    u32,
    Node,
> {
    if nodes.contains_key(id.0) {
        nodes.insert(id.0, with_metric(nodes[id.0], m))
    } else {
        nodes
    }
}

/// What one fragment does to a live session (`r` is the new state).
pub open spec fn ready_next(snap: DeviceSnapshot, e: HandshakeFragment, r: SessionState) -> bool {
    match e {
        HandshakeFragment::Lora(s) => r == SessionState::Ready(
            DeviceSnapshot { lora: Some(s), ..snap },
        ),
        HandshakeFragment::Device(s) => r == SessionState::Ready(
            DeviceSnapshot { device: Some(s), ..snap },
        ),
        HandshakeFragment::Position(s) => r == SessionState::Ready(
            DeviceSnapshot { position: Some(s), ..snap },
        ),
        HandshakeFragment::Power(s) => r == SessionState::Ready(
            DeviceSnapshot { power: Some(s), ..snap },
        ),
        HandshakeFragment::Network(s) => r == SessionState::Ready(
            DeviceSnapshot { network: Some(s), ..snap },
        ),
        HandshakeFragment::Display(s) => r == SessionState::Ready(
            DeviceSnapshot { display: Some(s), ..snap },
        ),
        HandshakeFragment::Bluetooth(s) => r == SessionState::Ready(
            DeviceSnapshot { bluetooth: Some(s), ..snap },
        ),
        HandshakeFragment::Node(n) => r matches SessionState::Ready(s2) && s2.nodes@
            == snap.nodes@.insert(n.id.0, n) && s2 == (DeviceSnapshot { nodes: s2.nodes, ..snap }),
        HandshakeFragment::Channel(c) => r matches SessionState::Ready(s2) && s2.channels@
            == upserted_channels(snap.channels@, c) && s2 == (DeviceSnapshot {
            channels: s2.channels,
            ..snap
        }),
        HandshakeFragment::Message(m) => r matches SessionState::Ready(s2) && s2.messages@
            == snap.messages@.push(m) && s2 == (DeviceSnapshot { messages: s2.messages, ..snap }),
        HandshakeFragment::MessageStateChanged { id, state } => r matches SessionState::Ready(s2)
            && s2.messages@ == with_message_state(snap.messages@, id, state) && s2 == (
        DeviceSnapshot { messages: s2.messages, ..snap }),
        HandshakeFragment::NodeMetric { id, update } => r matches SessionState::Ready(s2)
            && s2.nodes@ == with_node_metric(snap.nodes@, id, update) && s2 == (DeviceSnapshot {
            nodes: s2.nodes,
            ..snap
        }),
        _ => r == SessionState::Ready(snap),
    }
}

/// What one fragment does to any session state (`r` is the new state).
pub open spec fn session_next(state: SessionState, e: HandshakeFragment, r: SessionState) -> bool {
    match state {
        SessionState::Handshake(acc) => handshake_next(acc, e, r),
        SessionState::Ready(snap) => ready_next(snap, e, r),
        _ => r == state,
    }
}

/// Feeds one fragment from the radio into the session. A handshake gathers
/// identity, roster, channels and configuration until the radio confirms the
/// end of its configuration with the same nonce the client sent; a live
/// session keeps its snapshot current. Other states ignore fragments.
pub fn apply(state: SessionState, event: HandshakeFragment) -> (r: SessionState)
    ensures
        session_next(state, event, r),
{
    match state {
        SessionState::Disconnected => SessionState::Disconnected,
        SessionState::Connecting { transport, started_ms } => SessionState::Connecting {
            transport,
            started_ms,
        },
        SessionState::Failed { reason } => SessionState::Failed { reason },
        SessionState::Handshake(acc) => apply_handshake(acc, event),
        SessionState::Ready(snap) => apply_ready(snap, event),
    }
}

fn apply_handshake(acc: HandshakeAcc, event: HandshakeFragment) -> (r: SessionState)
    ensures
        handshake_next(acc, event, r),
{
    let mut acc = acc;
    match event {
        HandshakeFragment::MyNode { id } => {
            acc.my_node = Some(id);
            SessionState::Handshake(acc)
        },
        HandshakeFragment::Firmware(version) => {
            acc.firmware = version;
            SessionState::Handshake(acc)
        },
        HandshakeFragment::Node(node) => {
            let _ = acc.nodes.insert(node.id.0, node);
            SessionState::Handshake(acc)
        },
        HandshakeFragment::Channel(channel) => {
            upsert_channel(&mut acc.channels, channel);
            SessionState::Handshake(acc)
        },
        HandshakeFragment::Lora(settings) => {
            acc.lora = Some(settings);
            SessionState::Handshake(acc)
        },
        HandshakeFragment::Device(settings) => {
            acc.device = Some(settings);
            SessionState::Handshake(acc)
        },
        HandshakeFragment::Position(settings) => {
            acc.position = Some(settings);
            SessionState::Handshake(acc)
        },
        HandshakeFragment::Power(settings) => {
            acc.power = Some(settings);
            SessionState::Handshake(acc)
        },
        HandshakeFragment::Network(settings) => {
            acc.network = Some(settings);
            SessionState::Handshake(acc)
        },
        HandshakeFragment::Display(settings) => {
            acc.display = Some(settings);
            SessionState::Handshake(acc)
        },
        HandshakeFragment::Bluetooth(settings) => {
            acc.bluetooth = Some(settings);
            SessionState::Handshake(acc)
        },
        HandshakeFragment::ConfigComplete { id } => {
            if id != acc.config_id {
                return SessionState::Handshake(acc);
            }
            let my_node = match acc.my_node {
                Some(n) => n,
                None => {
                    return SessionState::Handshake(acc);
                },
            };
            let (short_name, long_name) = match acc.nodes.get(&my_node.0) {
                Some(n) => {
                    if !n.short_name.as_str().is_empty() || !n.long_name.as_str().is_empty() {
                        (n.short_name.clone(), n.long_name.clone())
                    } else {
                        (acc.short_name, acc.long_name)
                    }
                },
                None => (acc.short_name, acc.long_name),
            };
            SessionState::Ready(
                DeviceSnapshot {
                    my_node,
                    short_name,
                    long_name,
                    firmware_version: acc.firmware,
                    nodes: acc.nodes,
                    channels: acc.channels,
                    messages: Vec::new(),
                    lora: acc.lora,
                    device: acc.device,
                    position: acc.position,
                    power: acc.power,
                    network: acc.network,
                    display: acc.display,
                    bluetooth: acc.bluetooth,
                    stats: MeshStats::default(),
                },
            )
        },
        HandshakeFragment::Message(_) => SessionState::Handshake(acc),
        HandshakeFragment::MessageStateChanged { .. } => SessionState::Handshake(acc),
        HandshakeFragment::NodeMetric { .. } => SessionState::Handshake(acc),
    }
}

fn apply_metric(node: &mut Node, metric: NodeMetric)
    ensures
        *final(node) == with_metric(*old(node), metric),
{
    match metric {
        NodeMetric::Battery(b) => node.battery_level = Some(b),
        NodeMetric::Voltage(v) => node.voltage_v_bits = Some(v),
        NodeMetric::Snr(s) => node.snr_db_bits = Some(s),
        NodeMetric::Rssi(r) => node.rssi_dbm = Some(r),
    }
}

fn set_message_state(messages: &mut Vec<TextMessage>, id: PacketId, state: DeliveryState)
    ensures
        final(messages)@ == with_message_state(old(messages)@, id, state),
{
    let ghost ms = messages@;
    let n = messages.len();
    let mut i: usize = 0;
    while i < n
        invariant
            n == messages@.len(),
            messages@ == ms,
            ms == old(messages)@,
            i <= n,
            first_message_with_id(ms, id, 0) == first_message_with_id(ms, id, i as int),
        decreases n - i,
    {
        if messages[i].id == id {
            assert(first_message_with_id(ms, id, i as int) == i);
            let mut m = messages[i].clone();
            m.state = state;
            messages.set(i, m);
            return;
        }
        i = i + 1;
    }
}

fn apply_ready(snap: DeviceSnapshot, event: HandshakeFragment) -> (r: SessionState)
    ensures
        ready_next(snap, event, r),
{
    let mut snap = snap;
    match event {
        HandshakeFragment::MyNode { .. } => SessionState::Ready(snap),
        HandshakeFragment::Firmware(_) => SessionState::Ready(snap),
        HandshakeFragment::ConfigComplete { .. } => SessionState::Ready(snap),
        HandshakeFragment::Lora(settings) => {
            snap.lora = Some(settings);
            SessionState::Ready(snap)
        },
        HandshakeFragment::Device(settings) => {
            snap.device = Some(settings);
            SessionState::Ready(snap)
        },
        HandshakeFragment::Position(settings) => {
            snap.position = Some(settings);
            SessionState::Ready(snap)
        },
        HandshakeFragment::Power(settings) => {
            snap.power = Some(settings);
            SessionState::Ready(snap)
        },
        HandshakeFragment::Network(settings) => {
            snap.network = Some(settings);
            SessionState::Ready(snap)
        },
        HandshakeFragment::Display(settings) => {
            snap.display = Some(settings);
            SessionState::Ready(snap)
        },
        HandshakeFragment::Bluetooth(settings) => {
            snap.bluetooth = Some(settings);
            SessionState::Ready(snap)
        },
        HandshakeFragment::Node(node) => {
            let _ = snap.nodes.insert(node.id.0, node);
            SessionState::Ready(snap)
        },
        HandshakeFragment::Channel(channel) => {
            snap.upsert_channel(channel);
            SessionState::Ready(snap)
        },
        HandshakeFragment::Message(msg) => {
            snap.messages.push(msg);
            SessionState::Ready(snap)
        },
        HandshakeFragment::MessageStateChanged { id, state } => {
            set_message_state(&mut snap.messages, id, state);
            SessionState::Ready(snap)
        },
        HandshakeFragment::NodeMetric { id, update } => {
            match snap.nodes.get(&id.0) {
                Some(n) => {
                    let mut node = n.clone();
                    apply_metric(&mut node, update);
                    let _ = snap.nodes.insert(id.0, node);
                },
                None => {},
            }
            SessionState::Ready(snap)
        },
    }
}

// ---------------------------------------------------------------------------
// Laws of the session state machine
// ---------------------------------------------------------------------------

/// A handshake becomes a live session only on the configuration-complete
/// message carrying the client's own nonce, and only once the radio has said
/// which node it is; the snapshot then holds everything gathered.
pub proof fn lemma_ready_only_on_matching_complete(
    acc: HandshakeAcc,
    e: HandshakeFragment,
    r: SessionState,
)
    requires
        handshake_next(acc, e, r),
        r is Ready,
    ensures
        e matches HandshakeFragment::ConfigComplete { id } && id == acc.config_id,
        acc.my_node is Some,
        r matches SessionState::Ready(snap) && snapshot_of(acc, snap),
{
}

/// A live session stays live, for the same node, whatever the radio sends.
pub proof fn lemma_ready_stays_ready(snap: DeviceSnapshot, e: HandshakeFragment, r: SessionState)
    requires
        ready_next(snap, e, r),
    ensures
        r matches SessionState::Ready(s2) && s2.my_node == snap.my_node,
{
}

/// Without a handshake or live session, fragments change nothing.
pub proof fn lemma_idle_states_ignore_fragments(
    state: SessionState,
    e: HandshakeFragment,
    r: SessionState,
)
    requires
        session_next(state, e, r),
        !(state is Handshake || state is Ready),
    ensures
        r == state,
{
}

} // verus!
