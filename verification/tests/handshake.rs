use mt::domain::channel::ChannelRole;
use mt::domain::config::LoraSettings;
use mt::domain::ids::{ConfigId, NodeId};
use mt::domain::node::NodeRole;
use mt::domain::profile::TransportKind;
use mt::domain::session::{apply, start_handshake, HandshakeFragment, SessionState};
use mt::proto::meshtastic::{
    ChannelMsg, ChannelSettings, ConfigPayload, Data, DeviceMetrics, FromRadio, FromRadioPayload,
    LoRaConfig, MeshPacket, ModuleSettings, MyNodeInfo, NodeInfo, PositionMsg, User,
};
use mt::session::handshake::{fragments_from_radio, lora_from_proto, packet_time};
use mt::session::InitAcc;

fn msg(p: FromRadioPayload) -> FromRadio {
    FromRadio { payload_variant: Some(p) }
}

fn info(num: u32, long: &str, short: &str) -> NodeInfo {
    NodeInfo {
        num,
        user: Some(User { long_name: long.into(), short_name: short.into(), role: 2 }),
        position: Some(PositionMsg { latitude_i: Some(10), longitude_i: Some(20), altitude: None }),
        snr_bits: 0,
        last_heard: 1_700_000_000,
        device_metrics: Some(DeviceMetrics { battery_level: Some(77), voltage_bits: Some(5) }),
        hops_away: Some(1),
        is_favorite: true,
        is_ignored: false,
    }
}

#[test]
fn node_info_becomes_node() {
    let frags = fragments_from_radio(msg(FromRadioPayload::NodeInfo(info(9, "Nine", "N9"))), 0);
    assert_eq!(frags.len(), 1);
    match &frags[0] {
        HandshakeFragment::Node(n) => {
            assert_eq!(n.id, NodeId(9));
            assert_eq!(n.long_name, "Nine");
            assert_eq!(n.role, NodeRole::Router);
            assert_eq!(n.battery_level, Some(77));
            assert_eq!(n.last_heard_ms, Some(1_700_000_000_000));
            assert_eq!(n.hops_away, Some(1));
            assert!(n.is_favorite);
            let p = n.position.unwrap();
            assert_eq!((p.latitude_i, p.longitude_i), (10, 20));
        }
        other => panic!("unexpected {other:?}"),
    }
}

#[test]
fn channel_report_becomes_channel() {
    let ch = ChannelMsg {
        index: 2,
        settings: Some(ChannelSettings {
            psk: vec![1],
            name: "team".into(),
            uplink_enabled: true,
            downlink_enabled: false,
            module_settings: Some(ModuleSettings { position_precision: 11, is_muted: false }),
        }),
        role: 2,
    };
    let frags = fragments_from_radio(msg(FromRadioPayload::Channel(ch)), 0);
    match &frags[..] {
        [HandshakeFragment::Channel(c)] => {
            assert_eq!(c.index.get(), 2);
            assert_eq!(c.role, ChannelRole::Secondary);
            assert_eq!(c.name, "team");
            assert_eq!(c.psk, vec![1]);
            assert_eq!(c.position_precision, 11);
        }
        other => panic!("unexpected {other:?}"),
    }
    let out_of_range = ChannelMsg { index: 9, settings: None, role: 1 };
    assert!(fragments_from_radio(msg(FromRadioPayload::Channel(out_of_range)), 0).is_empty());
}

#[test]
fn other_reports_become_fragments() {
    let f = fragments_from_radio(msg(FromRadioPayload::MyInfo(MyNodeInfo { my_node_num: 42 })), 0);
    assert!(matches!(&f[..], [HandshakeFragment::MyNode { id: NodeId(42) }]));
    let f = fragments_from_radio(msg(FromRadioPayload::ConfigCompleteId(7)), 0);
    assert!(matches!(&f[..], [HandshakeFragment::ConfigComplete { id: ConfigId(7) }]));
    let f = fragments_from_radio(
        msg(FromRadioPayload::Metadata { firmware_version: "2.5.6".into() }),
        0,
    );
    assert!(matches!(&f[..], [HandshakeFragment::Firmware(v)] if v == "2.5.6"));
    let lora = LoRaConfig { use_preset: true, modem_preset: 0, hop_limit: 3, tx_enabled: true, tx_power: 20, region: 3 };
    let f = fragments_from_radio(msg(FromRadioPayload::Config(Some(ConfigPayload::Lora(lora)))), 0);
    assert!(matches!(&f[..], [HandshakeFragment::Lora(s)] if s.hop_limit == 3 && s.tx_power == 20));
    assert!(fragments_from_radio(FromRadio { payload_variant: None }, 0).is_empty());
    assert!(fragments_from_radio(msg(FromRadioPayload::Unused), 0).is_empty());
}

#[test]
fn text_packet_stamped_with_time() {
    let p = MeshPacket {
        from: 3,
        to: 4,
        channel: 0,
        id: 99,
        rx_time: 0,
        decoded: Some(Data { portnum: 1, payload: b"hi".to_vec(), request_id: 0 }),
    };
    let f = fragments_from_radio(msg(FromRadioPayload::Packet(p)), 12_345);
    match &f[..] {
        [HandshakeFragment::Message(m)] => {
            assert_eq!(m.text, "hi");
            assert_eq!(m.received_at_ms, 12_345);
        }
        other => panic!("unexpected {other:?}"),
    }
    assert_eq!(packet_time(0, 5), 5);
    assert_eq!(packet_time(2, 5), 2_000);
}

#[test]
fn lora_read_back_matches_written() {
    let mut l = LoraSettings::default();
    l.hop_limit = 5;
    l.tx_power = 17;
    let wire = mt::session::lora_to_proto(&l);
    assert_eq!(lora_from_proto(&wire), l);
}

#[test]
fn init_acc_builds_snapshot() {
    let mut acc = InitAcc::new();
    for m in [
        msg(FromRadioPayload::NodeInfo(info(9, "Nine", "N9"))),
        msg(FromRadioPayload::Metadata { firmware_version: "2.5.6".into() }),
        msg(FromRadioPayload::MyInfo(MyNodeInfo { my_node_num: 9 })),
    ] {
        for f in fragments_from_radio(m, 0) {
            acc.apply(f);
        }
    }
    assert_eq!(acc.my_node, Some(NodeId(9)));
    let snap = acc.into_snapshot(NodeId(9));
    assert_eq!(snap.my_node, NodeId(9));
    assert_eq!(snap.long_name, "Nine");
    assert_eq!(snap.short_name, "N9");
    assert_eq!(snap.firmware_version, "2.5.6");
    assert_eq!(snap.nodes.len(), 1);
}

#[test]
fn handshake_becomes_ready_on_matching_complete() {
    let mut state = start_handshake(TransportKind::Serial, ConfigId(5));
    state = apply(state, HandshakeFragment::MyNode { id: NodeId(1) });
    state = apply(state, HandshakeFragment::ConfigComplete { id: ConfigId(6) });
    assert!(matches!(state, SessionState::Handshake(_)));
    state = apply(state, HandshakeFragment::ConfigComplete { id: ConfigId(5) });
    match state {
        SessionState::Ready(snap) => assert_eq!(snap.my_node, NodeId(1)),
        other => panic!("unexpected {other:?}"),
    }
}

#[test]
fn idle_session_ignores_fragments() {
    let s = apply(SessionState::Disconnected, HandshakeFragment::MyNode { id: NodeId(1) });
    assert!(matches!(s, SessionState::Disconnected));
}
