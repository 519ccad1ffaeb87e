use std::collections::HashMap;

use mt::domain::channel::{Channel, ChannelRole};
use mt::domain::ids::{BleAddress, ChannelIndex, NodeId, PacketId};
use mt::domain::message::{DeliveryState, Direction, Recipient, TextMessage};
use mt::domain::node::{Node, NodeRole, Position};
use mt::domain::profile::{ConnectionProfile, TransportKind};
use mt::domain::snapshot::DeviceSnapshot;
use mt::session::commands::Command;
use mt::session::Event;
use mt::ui::alerts::{on_message, on_node, AlertConfig, AlertRuntime, BatteryRule};
use mt::ui::chat::{
    channel_label, channel_messages, compose_send, delivery_label, dm_options, note_message_count,
    sender_name, ChatUi,
};
use mt::ui::connect::{build_profile, AddForm};
use mt::ui::details::{apply_action, format_last_heard as details_last_heard, non_empty_or, Action};
use mt::ui::firmware::{is_below_parity, parse_version};
use mt::ui::inspector::{export_json, push_json_escaped, summary_line, InspectorUi, INSPECTOR_CAPACITY};
use mt::ui::logs::{export_text, Level, LogsUi, LOG_CAPACITY};
use mt::ui::nodes::{
    display_name, filtered_nodes, format_cached_age, format_last_heard, node_matches,
    node_numbers, sort_nodes, NodeCounts, NodesSort, NodesUi,
};
use mt::ui::reconnect::{backoff_secs, banner_text, tick, ReconnectUi};
use mt::ui::remote_admin::{remote_admin_actions, RemoteAdminUi};
use mt::ui::scan::{choose_scanned, upsert_row, DiscoveredRow};
use mt::ui::status::human_short;
use mt::ui::topology::{group_by_ring, human_ago, short_label};
use mt::ui::{is_activity, AppState, SessionStatus, Tab};

fn ui_node(id: u32, long: &str, short: &str) -> Node {
    Node {
        id: NodeId(id),
        long_name: long.into(),
        short_name: short.into(),
        role: NodeRole::Client,
        battery_level: None,
        voltage_v_bits: None,
        snr_db_bits: None,
        rssi_dbm: None,
        hops_away: None,
        last_heard_ms: None,
        position: None,
        is_favorite: false,
        is_ignored: false,
    }
}

fn ui_msg(id: u32, to: Recipient, text: &str, at: u64, channel: u8) -> TextMessage {
    TextMessage {
        id: PacketId(id),
        channel: ChannelIndex::new(channel).unwrap(),
        from: NodeId(50),
        to,
        text: text.into(),
        received_at_ms: at,
        direction: Direction::Incoming,
        state: DeliveryState::Acked,
    }
}

fn serial_profile(name: &str) -> ConnectionProfile {
    ConnectionProfile::Serial { name: name.into(), path: "/dev/ttyACM0".into() }
}

#[test]
fn backoff_schedule() {
    assert_eq!(backoff_secs(1), 3);
    assert_eq!(backoff_secs(2), 10);
    assert_eq!(backoff_secs(3), 30);
    assert_eq!(backoff_secs(4), 60);
    assert_eq!(backoff_secs(100), 60);
}

#[test]
fn lost_link_is_retried_with_backoff() {
    let mut r = ReconnectUi::default();
    r.mark_user_connect(&serial_profile("bench"));
    assert_eq!(r.last_active.as_deref(), Some("serial:/dev/ttyACM0"));
    r.on_connected();
    r.on_disconnected(1_000);
    assert_eq!(r.attempt, 1);
    assert_eq!(r.next_at_ms, Some(4_000));
    assert!(r.pop_due(3_999).is_none());
    let due = r.pop_due(4_000);
    assert!(matches!(due, Some(ConnectionProfile::Serial { .. })));
    // Popped once: nothing more until the next drop.
    assert!(r.pop_due(10_000).is_none());
    r.on_disconnected(10_000);
    assert_eq!(r.attempt, 2);
    assert_eq!(r.next_at_ms, Some(20_000));
}

#[test]
fn user_disconnect_is_not_retried() {
    let mut r = ReconnectUi::default();
    r.mark_user_connect(&serial_profile("bench"));
    r.mark_user_disconnect();
    assert!(r.profile.is_none());
    r.on_disconnected(5_000);
    assert_eq!(r.attempt, 0);
    assert!(r.next_at_ms.is_none());
    assert!(!r.intentional_disconnect);
    assert!(r.pop_due(100_000).is_none());
}

#[test]
fn cancel_stops_the_loop() {
    let mut r = ReconnectUi::default();
    r.arm_from_startup(serial_profile("bench"), 50);
    assert_eq!(r.next_at_ms, Some(50));
    r.cancel();
    assert!(r.profile.is_none());
    assert!(r.next_at_ms.is_none());
    assert!(tick(&mut r, true, 1_000).is_none());
}

#[test]
fn tick_sends_connect_when_due() {
    let mut r = ReconnectUi::default();
    r.arm_from_startup(serial_profile("bench"), 0);
    assert!(tick(&mut r, false, 10).is_none());
    assert!(matches!(tick(&mut r, true, 10), Some(Command::Connect(_))));
    assert!(tick(&mut r, true, 20).is_none());
}

#[test]
fn reconnect_banner_texts() {
    let mut r = ReconnectUi::default();
    r.mark_user_connect(&serial_profile("bench"));
    assert!(banner_text(&r, true, false, 0).is_none());
    assert_eq!(banner_text(&r, false, true, 0).unwrap(), "Reconnecting to bench — attempt 1…");
    r.on_disconnected(0);
    assert_eq!(
        banner_text(&r, true, false, 1_500).unwrap(),
        "Link lost. Retrying bench in 1s (attempt 2)."
    );
    assert!(banner_text(&r, false, false, 0).is_none());
}

#[test]
fn short_durations() {
    assert_eq!(human_short(0), "0s");
    assert_eq!(human_short(59), "59s");
    assert_eq!(human_short(60), "1m");
    assert_eq!(human_short(3_599), "59m");
    assert_eq!(human_short(3_600), "1h");
    assert_eq!(human_short(86_399), "23h");
    assert_eq!(human_short(86_400), "1d");
    assert_eq!(human_short(200_000), "2d");
}

#[test]
fn ago_texts() {
    assert_eq!(human_ago(4), "just now");
    assert_eq!(human_ago(5), "5s ago");
    assert_eq!(human_ago(120), "2m ago");
    assert_eq!(human_ago(7_200), "2h ago");
    assert_eq!(human_ago(172_800), "2d ago");
}

#[test]
fn labels_for_nodes() {
    assert_eq!(short_label(&ui_node(1, "Long", "SH")), "SH");
    assert_eq!(short_label(&ui_node(1, "Long", "")), "Long");
    assert_eq!(short_label(&ui_node(0x2a, "", "")), "!0000002a");
    assert_eq!(display_name(&ui_node(1, "Long", "SH")), "Long");
    assert_eq!(display_name(&ui_node(1, "", "SH")), "SH");
    assert_eq!(display_name(&ui_node(0xff, "", "")), "!000000ff");
}

#[test]
fn last_heard_texts() {
    assert_eq!(format_last_heard(None, 10_000), "—");
    assert_eq!(format_last_heard(Some(20_000), 10_000), "—");
    assert_eq!(format_last_heard(Some(0), 61_000), "1m");
    assert_eq!(details_last_heard(Some(0), 61_000), "1m ago");
    assert_eq!(details_last_heard(None, 0), "—");
    assert_eq!(format_cached_age(None, 0), "—");
    assert_eq!(format_cached_age(Some(5_000), 1_000), "just now");
    assert_eq!(format_cached_age(Some(0), 7_200_000), "2h ago");
    assert_eq!(non_empty_or("", "—"), "—");
    assert_eq!(non_empty_or("x", "—"), "x");
}

#[test]
fn node_search() {
    let n = ui_node(0xbeef, "Hill Top", "HT");
    assert!(node_matches(&n, "hill"));
    assert!(node_matches(&n, "ht"));
    assert!(node_matches(&n, "beef"));
    assert!(!node_matches(&n, "valley"));
    let mut snap = DeviceSnapshot::default();
    snap.nodes.insert(1, ui_node(1, "Alpha", "A"));
    snap.nodes.insert(2, ui_node(2, "Bravo", "B"));
    let hits = filtered_nodes(&snap, "bra");
    assert_eq!(hits, vec![2]);
    let mut all = node_numbers(&snap.nodes);
    all.sort();
    assert_eq!(all, vec![1, 2]);
}

#[test]
fn node_counts_and_flash() {
    let mut snap = DeviceSnapshot::default();
    let mut a = ui_node(1, "A", "A");
    a.last_heard_ms = Some(1_000);
    snap.nodes.insert(1, a);
    snap.nodes.insert(2, ui_node(2, "B", "B"));
    snap.nodes.insert(3, ui_node(3, "C", "C"));
    let mut ui = NodesUi::default();
    ui.seen_live.insert(1);
    ui.seen_live.insert(2);
    let c = NodeCounts::compute(&snap, &ui, 2_000);
    assert_eq!(c.total, 3);
    assert_eq!(c.online, 1);
    assert_eq!(c.idle, 1);
    assert_eq!(c.archived, 1);
    ui.mark_updated(NodeId(1), 100);
    assert!(ui.is_flashing(NodeId(1), 1_000));
    assert!(!ui.is_flashing(NodeId(1), 1_600));
    assert!(!ui.is_flashing(NodeId(2), 100));
}

#[test]
fn firmware_versions() {
    assert_eq!(parse_version("2.5.4.abcdef"), Some((2, 5)));
    assert_eq!(parse_version("2.4.0-beta"), Some((2, 4)));
    assert_eq!(parse_version("1.3.7"), Some((1, 3)));
    assert_eq!(parse_version("v2"), Some((2, 0)));
    assert_eq!(parse_version("  "), None);
    assert_eq!(parse_version("beta"), None);
    assert_eq!(parse_version("99999999999.1"), None);
    assert!(is_below_parity("2.4.9"));
    assert!(is_below_parity("1.9"));
    assert!(!is_below_parity("2.5.0"));
    assert!(!is_below_parity("3.0"));
    assert!(!is_below_parity("unknown"));
}

#[test]
fn chat_labels_and_delivery() {
    let named = Channel {
        index: ChannelIndex::new(1).unwrap(),
        role: ChannelRole::Secondary,
        name: "team".into(),
        psk: vec![],
        uplink_enabled: false,
        downlink_enabled: false,
        position_precision: 0,
    };
    assert_eq!(channel_label(&named), "team");
    let mut anon = named.clone();
    anon.name.clear();
    assert_eq!(channel_label(&anon), "#1");
    anon.role = ChannelRole::Disabled;
    assert_eq!(channel_label(&anon), "#1 (off)");
    anon.role = ChannelRole::Primary;
    assert_eq!(channel_label(&anon), "Primary");
    assert_eq!(delivery_label(&DeliveryState::Queued), "○ queued");
    assert_eq!(delivery_label(&DeliveryState::Sent), "◐ sent");
    assert_eq!(delivery_label(&DeliveryState::Acked), "✓ acked");
    assert_eq!(delivery_label(&DeliveryState::Failed("no ack".into())), "✗ failed");
}

#[test]
fn composer_sends_and_clears() {
    let mut chat = ChatUi::default();
    chat.composer_text = "   ".into();
    assert!(compose_send(&mut chat, ChannelIndex::primary()).is_none());
    assert_eq!(chat.composer_text, "   ");
    chat.composer_text = " hi ".into();
    chat.dm_target = Some(NodeId(9));
    match compose_send(&mut chat, ChannelIndex::primary()) {
        Some(Command::SendText { to, text, want_ack, .. }) => {
            assert_eq!(to, Recipient::Node(NodeId(9)));
            assert_eq!(text, " hi ");
            assert!(want_ack);
        }
        other => panic!("unexpected {other:?}"),
    }
    assert!(chat.composer_text.is_empty());
}

#[test]
fn chat_message_filtering_and_follow() {
    let ms = vec![
        ui_msg(1, Recipient::Broadcast, "a", 1, 0),
        ui_msg(2, Recipient::Broadcast, "b", 2, 1),
        ui_msg(3, Recipient::Broadcast, "c", 3, 0),
    ];
    let on0 = channel_messages(&ms, ChannelIndex::primary());
    let ids: Vec<u32> = on0.iter().map(|m| m.id.0).collect();
    assert_eq!(ids, vec![1, 3]);
    let mut chat = ChatUi::default();
    chat.follow_bottom = false;
    note_message_count(&mut chat, 2);
    assert!(chat.follow_bottom);
    assert_eq!(chat.last_seen_count, 2);
}

#[test]
fn connect_form_profiles() {
    let mut f = AddForm::default();
    assert!(build_profile(&f).is_none());
    f.kind = Some(TransportKind::Tcp);
    f.name = "net".into();
    f.host = "10.0.0.2".into();
    f.port = "4403".into();
    assert!(matches!(build_profile(&f), Some(ConnectionProfile::Tcp { port: 4403, .. })));
    f.port = "70000".into();
    assert!(build_profile(&f).is_none());
    f.port = "x".into();
    assert!(build_profile(&f).is_none());
    f.kind = Some(TransportKind::Ble);
    f.address = "aa:bb".into();
    match build_profile(&f) {
        Some(ConnectionProfile::Ble { address, .. }) => assert_eq!(address.as_str(), "AA:BB"),
        other => panic!("unexpected {other:?}"),
    }
}

#[test]
fn detail_actions_toggle_flags() {
    let mut nodes = HashMap::new();
    nodes.insert(4, ui_node(4, "D", "D"));
    assert!(matches!(
        apply_action(&mut nodes, NodeId(4), Action::ToggleFavorite),
        Some(Command::SetFavorite { favorite: true, .. })
    ));
    assert!(nodes[&4].is_favorite);
    assert!(matches!(
        apply_action(&mut nodes, NodeId(4), Action::ToggleIgnored),
        Some(Command::SetIgnored { ignored: true, .. })
    ));
    assert!(apply_action(&mut nodes, NodeId(5), Action::ToggleFavorite).is_none());
    assert!(apply_action(&mut nodes, NodeId(4), Action::SendMessage).is_none());
}

#[test]
fn alerts_on_direct_message_and_keyword() {
    let mut cfg = AlertConfig::default();
    cfg.keywords = vec!["  FIRE ".into(), "".into()];
    let dm = ui_msg(1, Recipient::Node(NodeId(7)), "there is a fire", 0, 0);
    let alerts = on_message(&cfg, NodeId(7), &dm, "Bob");
    assert_eq!(alerts.len(), 2);
    assert_eq!(alerts[0].title, "DM from Bob");
    assert_eq!(alerts[0].body, "there is a fire");
    assert_eq!(alerts[1].title, "Keyword:   FIRE ");
    assert_eq!(alerts[1].body, "Bob: there is a fire");
    let mut outgoing = dm.clone();
    outgoing.direction = Direction::Outgoing;
    assert!(on_message(&cfg, NodeId(7), &outgoing, "Bob").is_empty());
    cfg.enabled = false;
    assert!(on_message(&cfg, NodeId(7), &dm, "Bob").is_empty());
}

#[test]
fn battery_alert_fires_once_per_crossing() {
    let mut cfg = AlertConfig::default();
    cfg.battery_rules = vec![BatteryRule { node: NodeId(3), threshold_percent: 20 }];
    let mut rt = AlertRuntime::default();
    let mut n = ui_node(3, "Solar", "S");
    n.battery_level = Some(25);
    assert!(on_node(&cfg, &mut rt, &n).is_empty());
    n.battery_level = Some(19);
    let fired = on_node(&cfg, &mut rt, &n);
    assert_eq!(fired.len(), 1);
    assert_eq!(fired[0].title, "Solar: battery below 20%");
    assert_eq!(fired[0].body, "Current: 19%");
    n.battery_level = Some(18);
    assert!(on_node(&cfg, &mut rt, &n).is_empty());
    n.battery_level = Some(30);
    assert!(on_node(&cfg, &mut rt, &n).is_empty());
    n.battery_level = Some(10);
    assert_eq!(on_node(&cfg, &mut rt, &n).len(), 1);
}

#[test]
fn battery_alert_on_first_reading_below() {
    let mut cfg = AlertConfig::default();
    cfg.battery_rules = vec![BatteryRule { node: NodeId(3), threshold_percent: 20 }];
    let mut rt = AlertRuntime::default();
    let mut n = ui_node(3, "", "");
    n.battery_level = Some(5);
    let fired = on_node(&cfg, &mut rt, &n);
    assert_eq!(fired[0].title, "!00000003: battery below 20%");
}

#[test]
fn log_ring_keeps_newest() {
    let mut logs = LogsUi::default();
    for i in 0..(LOG_CAPACITY as u64 + 3) {
        logs.push(i, 20, "src".into(), format!("line {i}"));
    }
    assert_eq!(logs.entries.len(), LOG_CAPACITY);
    assert_eq!(logs.entries[0].message, "line 3");
    assert_eq!(Level::from_proto(40), Level::Error);
    assert_eq!(Level::from_proto(7), Level::Unknown);
    assert_eq!(Level::Warning.label(), "WARN");
    assert!(Level::Critical.rank() > Level::Info.rank());
}

#[test]
fn log_export_filters() {
    let mut logs = LogsUi::default();
    logs.push(1, 10, "radio".into(), "debug line".into());
    logs.push(2, 40, "radio".into(), "Bad Thing".into());
    logs.min_level = Level::Info;
    let text = export_text(&logs, &vec!["t1".to_string(), "t2".to_string()]);
    assert_eq!(text, "t2 [ERROR] radio: Bad Thing\n");
    logs.min_level = Level::Trace;
    logs.filter = " BAD ".into();
    let text = export_text(&logs, &vec!["t1".to_string(), "t2".to_string()]);
    assert_eq!(text, "t2 [ERROR] radio: Bad Thing\n");
}

#[test]
fn inspector_ring_and_export() {
    let mut ins = InspectorUi::default();
    ins.push(5, 12, "Packet".into(), "Packet {\n  id: 1\n}".into());
    ins.push(6, 3, "MyInfo".into(), "MyInfo \"x\"".into());
    assert_eq!(ins.entries[0].id, 0);
    assert_eq!(ins.entries[1].id, 1);
    assert_eq!(summary_line("Packet {\r\n  id: 1\n}"), "Packet {");
    assert_eq!(summary_line("one line"), "one line");
    let json = export_json(&ins, &vec!["a".to_string(), "b".to_string()]);
    assert_eq!(
        json,
        "[\n  {\"at\":\"a\",\"variant\":\"Packet\",\"bytes\":12,\"debug\":\"Packet {\\n  id: 1\\n}\"},\n  {\"at\":\"b\",\"variant\":\"MyInfo\",\"bytes\":3,\"debug\":\"MyInfo \\\"x\\\"\"}\n]\n"
    );
    ins.filter = "myinfo".into();
    let json = export_json(&ins, &vec!["a".to_string(), "b".to_string()]);
    assert!(json.starts_with("[\n  {\"at\":\"b\""));
    ins.paused = true;
    ins.push(7, 1, "X".into(), "X".into());
    assert_eq!(ins.entries.len(), 2);
    let mut s = String::new();
    push_json_escaped(&mut s, "a\\b");
    assert_eq!(s, "a\\\\b");
    assert!(INSPECTOR_CAPACITY >= 2);
}

#[test]
fn remote_admin_menu() {
    let actions = remote_admin_actions();
    assert_eq!(actions.len(), 6);
    let mut ui = RemoteAdminUi::default();
    ui.target = Some(NodeId(1));
    ui.close();
    assert!(ui.target.is_none());
}

#[test]
fn scan_rows_upsert_by_address() {
    let mut rows = Vec::new();
    let row = |name: &str, rssi: i16| DiscoveredRow {
        name: name.into(),
        address: BleAddress::new("aa:01"),
        rssi_dbm: Some(rssi),
        is_connected: false,
    };
    upsert_row(&mut rows, row("first", -80));
    upsert_row(&mut rows, row("second", -60));
    assert_eq!(rows.len(), 1);
    assert_eq!(rows[0].name, "second");
    assert_eq!(rows[0].rssi_dbm, Some(-60));
}

#[test]
fn topology_rings() {
    let mut snap = DeviceSnapshot::default();
    snap.my_node = NodeId(1);
    snap.nodes.insert(1, ui_node(1, "me", "me"));
    let mut a = ui_node(2, "a", "a");
    a.hops_away = Some(0);
    snap.nodes.insert(2, a);
    let mut b = ui_node(3, "b", "b");
    b.hops_away = Some(5);
    snap.nodes.insert(3, b);
    snap.nodes.insert(4, ui_node(4, "c", "c"));
    let rings = group_by_ring(&snap);
    assert_eq!(rings[0], vec![NodeId(2)]);
    assert_eq!(rings[2], vec![NodeId(3)]);
    assert_eq!(rings[3], vec![NodeId(4)]);
}

#[test]
fn app_state_reduces_events() {
    let mut st = AppState::new(vec![serial_profile("bench")]);
    assert_eq!(st.status, SessionStatus::Disconnected);
    assert_eq!(st.active_tab, Tab::Chat);
    st.reduce(Event::Connecting, 1, Vec::new());
    assert_eq!(st.status, SessionStatus::Connecting);
    assert!(st.last_activity_ms.is_none());
    st.reduce(Event::Error("boom".into()), 2, Vec::new());
    assert_eq!(st.last_error.as_deref(), Some("boom"));
    let mut snap = DeviceSnapshot::default();
    snap.my_node = NodeId(1);
    snap.messages.push(ui_msg(10, Recipient::Broadcast, "late", 300, 0));
    let history = vec![
        ui_msg(11, Recipient::Broadcast, "early", 100, 0),
        ui_msg(10, Recipient::Broadcast, "late", 300, 0),
    ];
    st.reduce(Event::Connected(Box::new(snap)), 3, history);
    assert!(st.connected());
    assert_eq!(st.last_activity_ms, Some(3));
    let ids: Vec<u32> = st.snapshot.messages.iter().map(|m| m.id.0).collect();
    assert_eq!(ids, vec![11, 10]);
    let mut me = ui_node(1, "Renamed", "");
    me.battery_level = Some(50);
    st.reduce(Event::NodeUpdated(me), 4, Vec::new());
    assert_eq!(st.snapshot.long_name, "Renamed");
    assert_eq!(st.snapshot.short_name, "");
    assert!(st.nodes_ui.is_flashing(NodeId(1), 5));
    st.reduce(
        Event::MessageStateChanged { id: PacketId(11), state: DeliveryState::Failed("x".into()) },
        5,
        Vec::new(),
    );
    assert_eq!(st.snapshot.messages[0].state, DeliveryState::Failed("x".into()));
    st.reduce(Event::Disconnected, 6, Vec::new());
    assert_eq!(st.status, SessionStatus::Disconnected);
    assert!(st.last_activity_ms.is_none());
    assert!(is_activity(&Event::NodeUpdated(ui_node(2, "", ""))));
    assert!(!is_activity(&Event::Disconnected));
}

#[test]
fn app_state_position_of_node_kept() {
    let mut st = AppState::new(Vec::new());
    let mut n = ui_node(8, "x", "y");
    n.position = Some(Position { latitude_i: 1, longitude_i: 2, altitude_m: None });
    st.reduce(Event::NodeUpdated(n.clone()), 1, Vec::new());
    assert_eq!(st.snapshot.nodes[&8], n);
}

#[test]
fn node_table_order() {
    let mut nodes = HashMap::new();
    let mut a = ui_node(1, "bravo", "B");
    a.battery_level = Some(50);
    a.last_heard_ms = Some(300);
    let mut b = ui_node(2, "alpha", "A");
    b.battery_level = None;
    b.last_heard_ms = Some(100);
    let mut c = ui_node(3, "alpha", "C");
    c.battery_level = Some(50);
    c.last_heard_ms = None;
    nodes.insert(1, a);
    nodes.insert(2, b);
    nodes.insert(3, c);
    let ids = vec![1, 2, 3];
    assert_eq!(sort_nodes(&nodes, &ids, NodesSort::LongName, true), vec![2, 3, 1]);
    assert_eq!(sort_nodes(&nodes, &ids, NodesSort::LongName, false), vec![1, 3, 2]);
    assert_eq!(sort_nodes(&nodes, &ids, NodesSort::Battery, true), vec![2, 1, 3]);
    assert_eq!(sort_nodes(&nodes, &ids, NodesSort::LastHeard, false), vec![1, 2, 3]);
    assert_eq!(sort_nodes(&nodes, &ids, NodesSort::ShortName, true), vec![2, 1, 3]);
    assert_eq!(sort_nodes(&nodes, &vec![3, 2, 1], NodesSort::Hops, true), vec![3, 2, 1]);
}

#[test]
fn status_badges() {
    let b = mt::ui::status::battery_badge(101);
    assert_eq!(b.text, "bat AC");
    assert_eq!(b.severity, mt::ui::status::Severity::Good);
    let b = mt::ui::status::battery_badge(19);
    assert_eq!(b.text, "bat 19%");
    assert_eq!(b.severity, mt::ui::status::Severity::Bad);
    assert_eq!(mt::ui::status::battery_badge(39).severity, mt::ui::status::Severity::Warning);
    assert_eq!(mt::ui::status::battery_badge(40).severity, mt::ui::status::Severity::Good);
    let l = mt::ui::status::link_badge(None, 0);
    assert_eq!(l.text, "link: waiting");
    assert_eq!(l.severity, mt::ui::status::Severity::Unknown);
    let l = mt::ui::status::link_badge(Some(1_000), 46_000);
    assert_eq!(l.text, "link 45s");
    assert_eq!(l.severity, mt::ui::status::Severity::Warning);
    let l = mt::ui::status::link_badge(Some(0), 180_000);
    assert_eq!(l.text, "link 3m");
    assert_eq!(l.severity, mt::ui::status::Severity::Bad);
    assert_eq!(mt::ui::status::relay_label(12), "relay 12");
}

#[test]
fn chat_sender_names() {
    let mut nodes = HashMap::new();
    nodes.insert(5u32, ui_node(5, "Base", "BS"));
    assert_eq!(sender_name(&nodes, NodeId(5)), "Base");
    assert_eq!(sender_name(&nodes, NodeId(0x1234)), "!00001234");
}

#[test]
fn chat_dm_targets_sorted_without_self() {
    let mut snap = DeviceSnapshot::default();
    snap.my_node = NodeId(1);
    snap.nodes.insert(1, ui_node(1, "Me", "ME"));
    snap.nodes.insert(2, ui_node(2, "Zulu", "ZU"));
    snap.nodes.insert(3, ui_node(3, "Alpha", "AL"));
    snap.nodes.insert(4, ui_node(4, "", "MK"));
    let opts = dm_options(&snap);
    let got: Vec<(u32, String)> = opts.iter().map(|(id, l)| (id.0, l.clone())).collect();
    assert_eq!(
        got,
        vec![(3, "Alpha".to_string()), (4, "MK".to_string()), (2, "Zulu".to_string())]
    );
}

#[test]
fn node_search_folds_unicode_case() {
    let n = ui_node(7, "ÄÖ Hütte", "ÄH");
    assert!(node_matches(&n, "äö hü"));
    assert!(!node_matches(&n, "ao"));
}

#[test]
fn scanned_radio_is_saved_once_and_connected() {
    let mut profiles: Vec<ConnectionProfile> = Vec::new();
    let mut r = ReconnectUi::default();
    let (added, cmd) =
        choose_scanned(&mut profiles, &mut r, "Radio".into(), BleAddress::new("aa:bb"), false);
    assert!(added);
    assert!(cmd.is_none());
    assert!(r.profile.is_none());
    assert_eq!(profiles.len(), 1);
    let (added, cmd) =
        choose_scanned(&mut profiles, &mut r, "Other".into(), BleAddress::new("AA:BB"), true);
    assert!(!added);
    assert_eq!(profiles.len(), 1);
    assert!(matches!(cmd, Some(Command::Connect(ConnectionProfile::Ble { .. }))));
    assert_eq!(r.last_active.as_deref(), Some("ble:AA:BB"));
    assert_eq!(r.attempt, 0);
    assert!(!r.intentional_disconnect);
}
