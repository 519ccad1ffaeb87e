use mt::domain::ids::{ChannelIndex, NodeId, PacketId, BROADCAST_NUM};
use mt::domain::message::{DeliveryState, Direction, Recipient, TextMessage};
use mt::domain::node::{Node, NodeRole, Position};
use mt::persist::error::PersistError;
use mt::persist::history::{
    code_to_direction, decode_state, direction_to_code, encode_state, node_role_from_wire,
    node_role_to_wire, stored_message, stored_node, StoredMessage,
};
use mt::persist::profiles::Stored;

fn sample_node() -> Node {
    Node {
        id: NodeId(0x99),
        long_name: "Hill Top".into(),
        short_name: "HT".into(),
        role: NodeRole::Router,
        battery_level: Some(87),
        voltage_v_bits: Some(0x4060_0000),
        snr_db_bits: Some(0x4120_0000),
        rssi_dbm: Some(-97),
        hops_away: Some(2),
        last_heard_ms: Some(1_700_000_000_000),
        position: Some(Position { latitude_i: 475_000_000, longitude_i: -1_220_000_000, altitude_m: Some(120) }),
        is_favorite: true,
        is_ignored: false,
    }
}

#[test]
fn direction_codes() {
    assert_eq!(direction_to_code(Direction::Incoming), 0);
    assert_eq!(direction_to_code(Direction::Outgoing), 1);
    assert_eq!(code_to_direction(0), Some(Direction::Incoming));
    assert_eq!(code_to_direction(1), Some(Direction::Outgoing));
    assert_eq!(code_to_direction(2), None);
}

#[test]
fn state_tags_round_trip() {
    for s in [
        DeliveryState::Queued,
        DeliveryState::Sent,
        DeliveryState::Acked,
        DeliveryState::Failed("no ack".into()),
    ] {
        let (tag, arg) = encode_state(&s);
        let back = decode_state(tag, arg.as_deref()).unwrap();
        assert_eq!(back, s);
    }
    assert_eq!(encode_state(&DeliveryState::Sent), ("sent", None));
    assert_eq!(encode_state(&DeliveryState::Failed("x".into())), ("failed", Some("x".to_string())));
}

#[test]
fn unknown_state_tag_is_refused() {
    match decode_state("lost", None) {
        Err(PersistError::StateDecode(why)) => assert_eq!(why, "unknown state 'lost'"),
        other => panic!("unexpected {other:?}"),
    }
    assert_eq!(decode_state("failed", None).unwrap(), DeliveryState::Failed(String::new()));
}

#[test]
fn role_numbers_round_trip() {
    for r in [
        NodeRole::Client,
        NodeRole::ClientMute,
        NodeRole::Router,
        NodeRole::RouterClient,
        NodeRole::Repeater,
        NodeRole::Tracker,
        NodeRole::Sensor,
        NodeRole::Tak,
        NodeRole::ClientHidden,
        NodeRole::LostAndFound,
        NodeRole::TakTracker,
        NodeRole::RouterLate,
        NodeRole::ClientBase,
        NodeRole::Unknown(42),
    ] {
        assert_eq!(node_role_from_wire(node_role_to_wire(&r)), r);
    }
    assert_eq!(node_role_to_wire(&NodeRole::Router), 2);
    assert_eq!(node_role_from_wire(12), NodeRole::ClientBase);
    assert_eq!(node_role_from_wire(99), NodeRole::Unknown(99));
}

#[test]
fn message_row_round_trip() {
    let m = TextMessage {
        id: PacketId(1234),
        channel: ChannelIndex::new(3).unwrap(),
        from: NodeId(5),
        to: Recipient::Node(NodeId(6)),
        text: "over and out".into(),
        received_at_ms: 1_700_000_123_456,
        direction: Direction::Outgoing,
        state: DeliveryState::Failed("routing error 5".into()),
    };
    let row = stored_message(&m);
    assert_eq!(row.direction, 1);
    assert_eq!(row.channel, 3);
    assert_eq!(row.state, "failed");
    let back = row.into_message().unwrap();
    assert_eq!(back, m);
}

#[test]
fn broadcast_message_row() {
    let m = TextMessage {
        id: PacketId(1),
        channel: ChannelIndex::primary(),
        from: NodeId(5),
        to: Recipient::Broadcast,
        text: "all".into(),
        received_at_ms: 0,
        direction: Direction::Incoming,
        state: DeliveryState::Acked,
    };
    let row = stored_message(&m);
    assert_eq!(row.to_node, BROADCAST_NUM);
    assert_eq!(row.into_message().unwrap(), m);
}

#[test]
fn bad_message_rows_are_refused() {
    let row = |direction: u8, channel: u8, state: &str| StoredMessage {
        packet_id: 1,
        direction,
        from_node: 2,
        to_node: 3,
        channel,
        text: "t".into(),
        received_ms: -5,
        state: state.into(),
        state_arg: None,
    };
    match row(7, 0, "sent").into_message() {
        Err(PersistError::StateDecode(why)) => assert_eq!(why, "bad direction 7"),
        other => panic!("unexpected {other:?}"),
    }
    match row(0, 9, "sent").into_message() {
        Err(PersistError::StateDecode(why)) => assert_eq!(why, "bad channel 9"),
        other => panic!("unexpected {other:?}"),
    }
    match row(0, 0, "weird").into_message() {
        Err(PersistError::StateDecode(why)) => assert_eq!(why, "unknown state 'weird'"),
        other => panic!("unexpected {other:?}"),
    }
    // A negative stored time reads as the epoch.
    assert_eq!(row(0, 0, "sent").into_message().unwrap().received_at_ms, 0);
}

#[test]
fn node_row_round_trip() {
    let n = sample_node();
    let row = stored_node(&n, 1_700_000_999_000);
    assert_eq!(row.node_id, 0x99);
    assert_eq!(row.role, 2);
    assert_eq!(row.battery, Some(87));
    let back = row.into_persisted();
    assert_eq!(back.node, n);
    assert_eq!(back.saved_at_ms, 1_700_000_999_000);
}

#[test]
fn node_row_without_position() {
    let mut n = sample_node();
    n.position = None;
    n.battery_level = None;
    n.last_heard_ms = None;
    let back = stored_node(&n, 5).into_persisted();
    assert_eq!(back.node, n);
}

#[test]
fn stored_profiles_default_is_empty() {
    let s = Stored::default();
    assert!(s.profiles.is_empty());
    assert!(s.last_active.is_none());
}
