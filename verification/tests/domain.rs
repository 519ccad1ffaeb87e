use base64::Engine;
use mt::domain::channel::{Channel, ChannelRole, PskSummary};
use mt::domain::channel_url::{self, ChannelUrlError};
use mt::domain::config::{region_label, modem_preset_label, LoraSettings};
use mt::domain::ids::{BleAddress, ChannelIndex, ConfigId, NodeId, PacketId};
use mt::domain::message::{DeliveryState, Direction, Recipient, TextMessage};
use mt::domain::node::{Node, NodeRole};
use mt::domain::profile::{ConnectionProfile, TransportKind};
use mt::domain::snapshot::{sort_by_time, DeviceSnapshot};
use mt::domain::stats::MeshStats;
use mt::domain::traceroute::TracerouteState;
use mt::proto::meshtastic::{ModemPreset, RegionCode};

fn chan(index: u8, role: ChannelRole, name: &str, psk: Vec<u8>) -> Channel {
    Channel {
        index: ChannelIndex::new(index).unwrap(),
        role,
        name: name.to_string(),
        psk,
        uplink_enabled: false,
        downlink_enabled: true,
        position_precision: 13,
    }
}

fn text_msg(id: u32, from: u32, at: u64, state: DeliveryState) -> TextMessage {
    TextMessage {
        id: PacketId(id),
        channel: ChannelIndex::primary(),
        from: NodeId(from),
        to: Recipient::Broadcast,
        text: format!("m{id}"),
        received_at_ms: at,
        direction: Direction::Incoming,
        state,
    }
}

pub fn plain_node(id: u32) -> Node {
    Node {
        id: NodeId(id),
        long_name: String::new(),
        short_name: String::new(),
        role: NodeRole::Client,
        battery_level: None,
        voltage_v_bits: None,
        snr_db_bits: None,
        rssi_dbm: None,
        hops_away: None,
        last_heard_ms: None,
        position: None,
        is_favorite: false,
        is_ignored: false,
    }
}

#[test]
fn channel_index_range() {
    assert_eq!(ChannelIndex::new(0).unwrap().get(), 0);
    assert_eq!(ChannelIndex::new(7).unwrap().get(), 7);
    assert!(ChannelIndex::new(8).is_none());
    assert_eq!(ChannelIndex::primary().get(), 0);
}

#[test]
fn ble_address_is_upper_case() {
    let a = BleAddress::new("aa:bb:0c");
    assert_eq!(a.as_str(), "AA:BB:0C");
}

#[test]
fn random_ids_are_nonzero() {
    for _ in 0..50 {
        assert_ne!(PacketId::random().0, 0);
        assert_ne!(ConfigId::random().0, 0);
    }
}

#[test]
fn psk_summaries() {
    assert_eq!(chan(0, ChannelRole::Primary, "", vec![]).psk_summary(), PskSummary::Unencrypted);
    assert!(!chan(0, ChannelRole::Primary, "", vec![]).has_psk());
    assert_eq!(chan(0, ChannelRole::Primary, "", vec![1]).psk_summary(), PskSummary::Preset(1));
    assert_eq!(chan(0, ChannelRole::Primary, "", vec![0; 16]).psk_summary(), PskSummary::Aes128);
    assert_eq!(chan(0, ChannelRole::Primary, "", vec![0; 32]).psk_summary(), PskSummary::Aes256);
    assert_eq!(chan(0, ChannelRole::Primary, "", vec![0; 5]).psk_summary(), PskSummary::Other(5));
    assert_eq!(PskSummary::Unencrypted.label(), "no encryption");
    assert_eq!(PskSummary::Preset(1).label(), "default preset #1");
    assert_eq!(PskSummary::Aes128.label(), "AES128");
    assert_eq!(PskSummary::Aes256.label(), "AES256");
    assert_eq!(PskSummary::Other(5).label(), "5B");
}

#[test]
fn delivery_ranks() {
    assert_eq!(DeliveryState::Queued.rank(), 0);
    assert_eq!(DeliveryState::Sent.rank(), 1);
    assert_eq!(DeliveryState::Acked.rank(), 2);
    assert_eq!(DeliveryState::Failed("x".into()).rank(), 2);
    assert!(DeliveryState::Acked.is_terminal());
    assert!(DeliveryState::Failed("x".into()).is_terminal());
    assert!(!DeliveryState::Sent.is_terminal());
}

#[test]
fn profile_keys_and_names() {
    let b = ConnectionProfile::Ble { name: "radio".into(), address: BleAddress::new("aa:bb") };
    assert_eq!(b.key(), "ble:AA:BB");
    assert_eq!(b.name(), "radio");
    assert_eq!(b.kind(), TransportKind::Ble);
    let s = ConnectionProfile::Serial { name: "usb".into(), path: "/dev/ttyUSB0".into() };
    assert_eq!(s.key(), "serial:/dev/ttyUSB0");
    assert_eq!(s.kind(), TransportKind::Serial);
    let t = ConnectionProfile::Tcp { name: "net".into(), host: "10.0.0.5".into(), port: 4403 };
    assert_eq!(t.key(), "tcp:10.0.0.5:4403");
    assert_eq!(t.name(), "net");
    assert_eq!(t.kind(), TransportKind::Tcp);
}

#[test]
fn stats_merge_keeps_unknown_fields() {
    let mut a = MeshStats::default();
    a.battery_level = Some(80);
    a.uptime_seconds = Some(10);
    let mut b = MeshStats::default();
    b.uptime_seconds = Some(20);
    b.num_online_nodes = Some(3);
    a.merge(&b);
    assert_eq!(a.battery_level, Some(80));
    assert_eq!(a.uptime_seconds, Some(20));
    assert_eq!(a.num_online_nodes, Some(3));
    let before = a;
    a.merge(&MeshStats::default());
    assert_eq!(a, before);
}

#[test]
fn traceroute_target() {
    assert_eq!(TracerouteState::Pending { started_at_ms: 5 }.target(), NodeId(0));
    assert_eq!(
        TracerouteState::Failed { target: NodeId(9), reason: "timeout".into() }.target(),
        NodeId(9)
    );
}

#[test]
fn config_labels() {
    assert_eq!(region_label(RegionCode::Us), "US");
    assert_eq!(region_label(RegionCode::Eu868), "EU 868");
    assert_eq!(modem_preset_label(ModemPreset::LongFast), "Long Fast");
    let l = LoraSettings::default();
    assert_eq!(l.hop_limit, 3);
}

#[test]
fn snapshot_upsert_channel_replaces_same_slot() {
    let mut s = DeviceSnapshot::default();
    s.upsert_channel(chan(0, ChannelRole::Primary, "a", vec![]));
    s.upsert_channel(chan(1, ChannelRole::Secondary, "b", vec![]));
    s.upsert_channel(chan(0, ChannelRole::Primary, "c", vec![1]));
    assert_eq!(s.channels.len(), 2);
    assert_eq!(s.channels[0].name, "c");
    assert_eq!(s.channels[1].name, "b");
}

#[test]
fn snapshot_upsert_message_dedups_and_upgrades() {
    let mut s = DeviceSnapshot::default();
    s.upsert_message(text_msg(1, 7, 100, DeliveryState::Queued));
    s.upsert_message(text_msg(1, 7, 200, DeliveryState::Acked));
    assert_eq!(s.messages.len(), 1);
    assert_eq!(s.messages[0].state, DeliveryState::Acked);
    assert_eq!(s.messages[0].received_at_ms, 100);
    // A state that is not further along does not downgrade.
    s.upsert_message(text_msg(1, 7, 300, DeliveryState::Sent));
    assert_eq!(s.messages[0].state, DeliveryState::Acked);
    // Another sender with the same packet id is a different message.
    s.upsert_message(text_msg(1, 8, 400, DeliveryState::Queued));
    assert_eq!(s.messages.len(), 2);
}

#[test]
fn sort_by_time_is_stable() {
    let ms = vec![
        text_msg(1, 1, 30, DeliveryState::Sent),
        text_msg(2, 1, 10, DeliveryState::Sent),
        text_msg(3, 1, 30, DeliveryState::Sent),
        text_msg(4, 1, 20, DeliveryState::Sent),
        text_msg(5, 1, 10, DeliveryState::Sent),
    ];
    let sorted = sort_by_time(&ms);
    let ids: Vec<u32> = sorted.iter().map(|m| m.id.0).collect();
    assert_eq!(ids, vec![2, 5, 4, 1, 3]);
    assert!(sort_by_time(&Vec::new()).is_empty());
}

#[test]
fn channel_url_round_trip() {
    let channels = vec![
        chan(0, ChannelRole::Primary, "LongFast", vec![1]),
        chan(1, ChannelRole::Disabled, "off", vec![]),
        chan(2, ChannelRole::Secondary, "team", vec![7; 16]),
    ];
    let url = channel_url::encode(&channels);
    assert!(url.starts_with("https://meshtastic.org/e/#"));
    let fragment = &url["https://meshtastic.org/e/#".len()..];
    assert!(fragment.chars().all(|c| c.is_ascii_alphanumeric() || c == '-' || c == '_'));
    let back = channel_url::decode(&url).unwrap();
    assert_eq!(back.len(), 2);
    assert_eq!(back[0].index.get(), 0);
    assert_eq!(back[0].role, ChannelRole::Primary);
    assert_eq!(back[0].name, "LongFast");
    assert_eq!(back[0].psk, vec![1]);
    assert!(back[0].downlink_enabled);
    assert!(!back[0].uplink_enabled);
    assert_eq!(back[0].position_precision, 13);
    assert_eq!(back[1].index.get(), 1);
    assert_eq!(back[1].role, ChannelRole::Secondary);
    assert_eq!(back[1].name, "team");
    assert_eq!(back[1].psk, vec![7; 16]);
}

#[test]
fn channel_url_decodes_known_link() {
    let chans = channel_url::decode("https://meshtastic.org/e/#CgMSAQESBggBQANIAQ").unwrap();
    assert_eq!(chans.len(), 1);
    assert_eq!(chans[0].role, ChannelRole::Primary);
    assert_eq!(chans[0].psk, vec![1]);
    assert_eq!(chans[0].name, "");
    // Without the scheme, and with surrounding blanks.
    let again = channel_url::decode("  meshtastic.org/e/#CgMSAQESBggBQANIAQ \n").unwrap();
    assert_eq!(again.len(), 1);
}

#[test]
fn channel_url_errors() {
    assert!(matches!(channel_url::decode("   "), Err(ChannelUrlError::Empty)));
    assert!(matches!(channel_url::decode("https://example.com/#abc"), Err(ChannelUrlError::BadPrefix)));
    assert!(matches!(
        channel_url::decode("https://meshtastic.org/e/#!!!"),
        Err(ChannelUrlError::Base64(_))
    ));
    // 0xFF is not a well-formed field key.
    assert!(matches!(channel_url::decode("https://meshtastic.org/e/#_w"), Err(ChannelUrlError::Proto)));
    assert!(matches!(channel_url::decode("https://meshtastic.org/e/#"), Err(ChannelUrlError::NoChannels)));
    assert_eq!(ChannelUrlError::Empty.message(), "URL is empty");
    assert_eq!(ChannelUrlError::NoChannels.message(), "share URL carries no channels");
    match channel_url::decode("https://meshtastic.org/e/#!!!") {
        Err(e) => assert!(e.message().starts_with("fragment is not valid base64url: ")),
        Ok(_) => panic!("expected an error"),
    }
}

#[test]
fn channel_url_with_no_enabled_channels() {
    let url = channel_url::encode(&[chan(0, ChannelRole::Disabled, "x", vec![])]);
    assert_eq!(url, "https://meshtastic.org/e/#");
    assert!(matches!(channel_url::decode(&url), Err(ChannelUrlError::NoChannels)));
}

#[test]
fn region_labels_are_distinct() {
    let all: Vec<RegionCode> = (0..=26).map(RegionCode::from_wire).collect();
    let labels: Vec<&str> = all.iter().map(|r| region_label(*r)).collect();
    assert_eq!(region_label(RegionCode::Eu868), "EU 868");
    for (i, a) in labels.iter().enumerate() {
        assert!(!a.is_empty());
        for b in &labels[i + 1..] {
            assert_ne!(a, b);
        }
    }
}

#[test]
fn ble_address_normal_form() {
    let a = BleAddress::new("aa:bB:0c");
    assert_eq!(a.as_str(), "AA:BB:0C");
    assert_eq!(BleAddress::new(a.as_str()), a);
    assert_eq!(BleAddress::new("AA:bb:0C"), a);
    assert_ne!(BleAddress::new("aa:bb:0d"), a);
}

#[test]
fn profile_keys_follow_the_link() {
    let t1 = ConnectionProfile::Tcp { name: "a".into(), host: "h:1".into(), port: 2 };
    let t2 = ConnectionProfile::Tcp { name: "a".into(), host: "h".into(), port: 12 };
    assert_ne!(t1.key(), t2.key());
    let renamed = ConnectionProfile::Tcp { name: "other".into(), host: "h:1".into(), port: 2 };
    assert_eq!(t1.key(), renamed.key());
    let s = ConnectionProfile::Serial { name: "a".into(), path: "ble:X".into() };
    let b = ConnectionProfile::Ble { name: "a".into(), address: BleAddress::new("x") };
    assert_ne!(s.key(), b.key());
}

#[test]
fn share_link_lora_section_is_checked() {
    let b64 = |b: &[u8]| base64::engine::general_purpose::URL_SAFE_NO_PAD.encode(b);
    // One channel named "a", and a LoRa section whose use_preset is a varint.
    let good = [0x0A, 0x03, 0x1A, 0x01, b'a', 0x12, 0x02, 0x08, 0x01];
    let chans = channel_url::decode(&format!("https://meshtastic.org/e/#{}", b64(&good))).unwrap();
    assert_eq!(chans.len(), 1);
    assert_eq!(chans[0].name, "a");
    // The same with use_preset sent as four bytes: not a LoRaConfig.
    let bad = [0x0A, 0x03, 0x1A, 0x01, b'a', 0x12, 0x05, 0x0D, 0, 0, 0, 0];
    assert!(matches!(
        channel_url::decode(&format!("https://meshtastic.org/e/#{}", b64(&bad))),
        Err(ChannelUrlError::Proto)
    ));
}

#[test]
fn share_link_text_is_rfc4648_base64url() {
    let url = channel_url::encode(&[chan(0, ChannelRole::Primary, "a", vec![])]);
    assert_eq!(url, "https://meshtastic.org/e/#CgkaAWEwAToCCA0");
}
