use mt::domain::config::LoraSettings;
use mt::domain::ids::{ChannelIndex, NodeId, PacketId, BROADCAST_NUM};
use mt::domain::message::{DeliveryState, Direction, Recipient};
use mt::domain::profile::ConnectionProfile;
use mt::proto::meshtastic::{
    AdminPayload, ConfigPayload, Data, FromRadio, FromRadioPayload, MeshPacket, OutgoingPayload,
    QueueStatus, ToRadio,
};
use mt::session::commands::{AdminAction, Command};
use mt::session::{
    admin_packet, cancels_connect, command_admin, connect_target, heartbeat, incoming_outcomes,
    lora_to_proto, no_ack_event, node_id_string, on_command, text_packet, want_config_request,
    CommandAction, Event, IncomingOutcome, LoopStep, PendingAcks,
};

fn packet_from(from: u32, to: u32, id: u32, portnum: i32, payload: Vec<u8>, request_id: u32) -> FromRadio {
    FromRadio {
        payload_variant: Some(FromRadioPayload::Packet(MeshPacket {
            from,
            to,
            channel: 1,
            id,
            rx_time: 0,
            decoded: Some(Data { portnum, payload, request_id }),
        })),
    }
}

#[test]
fn text_packet_to_broadcast_never_wants_ack() {
    let (id, pkt) = text_packet(ChannelIndex::primary(), Recipient::Broadcast, "hi", true);
    assert_ne!(id.0, 0);
    match pkt {
        ToRadio::Packet(p) => {
            assert_eq!(p.to, BROADCAST_NUM);
            assert_eq!(p.from, 0);
            assert_eq!(p.id, id.0);
            assert!(!p.want_ack);
            assert_eq!(p.decoded.portnum, 1);
            assert_eq!(p.decoded.payload, OutgoingPayload::Text(b"hi".to_vec()));
        }
        other => panic!("unexpected {other:?}"),
    }
}

#[test]
fn text_packet_to_node_wants_ack_when_asked() {
    let ch = ChannelIndex::new(2).unwrap();
    let (_, pkt) = text_packet(ch, Recipient::Node(NodeId(0x1234)), "héllo", true);
    match pkt {
        ToRadio::Packet(p) => {
            assert_eq!(p.to, 0x1234);
            assert_eq!(p.channel, 2);
            assert!(p.want_ack);
            assert_eq!(p.decoded.payload, OutgoingPayload::Text("héllo".as_bytes().to_vec()));
        }
        other => panic!("unexpected {other:?}"),
    }
    let (_, pkt) = text_packet(ch, Recipient::Node(NodeId(0x1234)), "x", false);
    assert!(matches!(pkt, ToRadio::Packet(p) if !p.want_ack));
}

#[test]
fn config_request_and_heartbeat() {
    let (cfg, msg) = want_config_request();
    assert_ne!(cfg.0, 0);
    assert_eq!(msg, ToRadio::WantConfigId(cfg.0));
    assert_eq!(heartbeat(), ToRadio::Heartbeat { nonce: 0 });
}

#[test]
fn node_id_text_is_bang_hex() {
    assert_eq!(node_id_string(NodeId(0xabcd)), "!0000abcd");
    assert_eq!(node_id_string(NodeId(0xDEADBEEF)), "!deadbeef");
}

#[test]
fn owner_rename_is_admin_request_to_self() {
    let cmd = Command::SetOwner { long_name: "Base Camp".into(), short_name: "BC".into() };
    match command_admin(cmd, NodeId(0x42)) {
        Some(AdminPayload::SetOwner(u)) => {
            assert_eq!(u.id, "!00000042");
            assert_eq!(u.long_name, "Base Camp");
            assert_eq!(u.short_name, "BC");
        }
        other => panic!("unexpected {other:?}"),
    }
    assert!(command_admin(Command::Disconnect, NodeId(1)).is_none());
    assert!(command_admin(Command::Admin(AdminAction::Reboot { seconds: 5 }), NodeId(1)).is_none());
}

#[test]
fn admin_packet_goes_to_own_node() {
    let (id, pkt) = admin_packet(NodeId(77), AdminPayload::SetConfig(ConfigPayload::Unused));
    match pkt {
        ToRadio::Packet(p) => {
            assert_eq!(p.to, 77);
            assert_eq!(p.id, id.0);
            assert_eq!(p.decoded.portnum, 6);
            assert!(p.decoded.want_response);
        }
        other => panic!("unexpected {other:?}"),
    }
}

#[test]
fn lora_hop_limit_is_capped() {
    let mut l = LoraSettings::default();
    l.hop_limit = 9;
    assert_eq!(lora_to_proto(&l).hop_limit, 7);
    l.hop_limit = 4;
    assert_eq!(lora_to_proto(&l).hop_limit, 4);
}

#[test]
fn pending_ack_reports_exactly_once() {
    let mut p = PendingAcks::new();
    p.track(PacketId(5));
    assert!(p.contains(PacketId(5)));
    let first = p.on_outcome(PacketId(5), DeliveryState::Acked);
    assert!(matches!(
        first,
        Some(Event::MessageStateChanged { id: PacketId(5), state: DeliveryState::Acked })
    ));
    assert!(!p.contains(PacketId(5)));
    assert!(p.on_outcome(PacketId(5), DeliveryState::Acked).is_none());
    assert!(p.on_ack_timeout(PacketId(5)).is_none());
}

#[test]
fn ack_timeout_fails_pending_message() {
    let mut p = PendingAcks::new();
    p.track(PacketId(9));
    match p.on_ack_timeout(PacketId(9)) {
        Some(Event::MessageStateChanged { id, state: DeliveryState::Failed(why) }) => {
            assert_eq!(id, PacketId(9));
            assert_eq!(why, "no ack");
        }
        other => panic!("unexpected {other:?}"),
    }
    assert!(p.on_outcome(PacketId(9), DeliveryState::Acked).is_none());
    assert!(matches!(no_ack_event(PacketId(3)), Event::MessageStateChanged { id: PacketId(3), .. }));
}

#[test]
fn text_sent_is_reported_queued() {
    let mut p = PendingAcks::new();
    let ev = p.text_sent(
        PacketId(11),
        ChannelIndex::primary(),
        Recipient::Broadcast,
        "yo".into(),
        NodeId(1),
        1_000,
    );
    match ev {
        Event::MessageReceived(m) => {
            assert_eq!(m.id, PacketId(11));
            assert_eq!(m.from, NodeId(1));
            assert_eq!(m.direction, Direction::Outgoing);
            assert_eq!(m.state, DeliveryState::Queued);
            assert_eq!(m.received_at_ms, 1_000);
        }
        other => panic!("unexpected {other:?}"),
    }
    assert!(p.contains(PacketId(11)));
}

#[test]
fn commands_while_connected() {
    let mut p = PendingAcks::new();
    assert!(matches!(
        on_command(Command::Disconnect, NodeId(1), &mut p),
        CommandAction::Step(LoopStep::Disconnect)
    ));
    let profile = ConnectionProfile::Serial { name: "s".into(), path: "/dev/x".into() };
    assert!(matches!(
        on_command(Command::Connect(profile), NodeId(1), &mut p),
        CommandAction::Step(LoopStep::Continue)
    ));
    match on_command(
        Command::SendText {
            channel: ChannelIndex::primary(),
            to: Recipient::Node(NodeId(2)),
            text: "ping".into(),
            want_ack: true,
        },
        NodeId(1),
        &mut p,
    ) {
        CommandAction::SendText { id, arm_ack_timer, text, .. } => {
            assert_ne!(id.0, 0);
            assert!(arm_ack_timer);
            assert_eq!(text, "ping");
        }
        other => panic!("unexpected {other:?}"),
    }
    assert!(matches!(
        on_command(Command::AckTimeout(PacketId(99)), NodeId(1), &mut p),
        CommandAction::Step(LoopStep::Continue)
    ));
    assert!(matches!(
        on_command(Command::SetLora(LoraSettings::default()), NodeId(1), &mut p),
        CommandAction::Send(ToRadio::Packet(_))
    ));
}

#[test]
fn connecting_is_cancelled_only_by_disconnect() {
    assert!(cancels_connect(&None));
    assert!(cancels_connect(&Some(Command::Disconnect)));
    assert!(!cancels_connect(&Some(Command::RemoveFixedPosition)));
    let profile = ConnectionProfile::Tcp { name: "t".into(), host: "h".into(), port: 1 };
    assert!(connect_target(Command::Connect(profile)).is_some());
    assert!(connect_target(Command::Disconnect).is_none());
}

#[test]
fn incoming_text_becomes_received_message() {
    let out = incoming_outcomes(packet_from(7, BROADCAST_NUM, 33, 1, b"hey".to_vec(), 0), 5_000);
    assert_eq!(out.len(), 1);
    match &out[0] {
        IncomingOutcome::Event(Event::MessageReceived(m)) => {
            assert_eq!(m.text, "hey");
            assert_eq!(m.from, NodeId(7));
            assert_eq!(m.id, PacketId(33));
            assert_eq!(m.to, Recipient::Broadcast);
            assert_eq!(m.channel.get(), 1);
            assert_eq!(m.received_at_ms, 5_000);
            assert_eq!(m.direction, Direction::Incoming);
        }
        other => panic!("unexpected {other:?}"),
    }
}

#[test]
fn routing_reply_acknowledges_request() {
    let ok = incoming_outcomes(packet_from(7, 1, 34, 5, vec![0x18, 0x00], 12), 0);
    assert!(matches!(
        &ok[..],
        [IncomingOutcome::Ack { id: PacketId(12), state: DeliveryState::Acked }]
    ));
    let failed = incoming_outcomes(packet_from(7, 1, 35, 5, vec![0x18, 0x05], 13), 0);
    match &failed[..] {
        [IncomingOutcome::Ack { id, state: DeliveryState::Failed(why) }] => {
            assert_eq!(*id, PacketId(13));
            assert_eq!(why, "routing error 5");
        }
        other => panic!("unexpected {other:?}"),
    }
}

#[test]
fn queue_status_outcomes() {
    let accepted = incoming_outcomes(
        FromRadio {
            payload_variant: Some(FromRadioPayload::QueueStatus(QueueStatus {
                res: 0,
                mesh_packet_id: 21,
            })),
        },
        0,
    );
    assert!(matches!(&accepted[..], [IncomingOutcome::QueueOk(PacketId(21))]));
    let rejected = incoming_outcomes(
        FromRadio {
            payload_variant: Some(FromRadioPayload::QueueStatus(QueueStatus {
                res: -3,
                mesh_packet_id: 22,
            })),
        },
        0,
    );
    match &rejected[..] {
        [IncomingOutcome::Ack { id, state: DeliveryState::Failed(why) }] => {
            assert_eq!(*id, PacketId(22));
            assert_eq!(why, "device queue rejected (-3)");
        }
        other => panic!("unexpected {other:?}"),
    }
}

#[test]
fn pending_acks_follow_incoming_outcomes() {
    let mut p = PendingAcks::new();
    p.track(PacketId(12));
    let ev = p.on_incoming(IncomingOutcome::Ack { id: PacketId(12), state: DeliveryState::Acked });
    assert!(ev.is_some());
    let ev2 = p.on_incoming(IncomingOutcome::Ack { id: PacketId(12), state: DeliveryState::Acked });
    assert!(ev2.is_none());
}

#[test]
fn admin_warnings_differ_by_kind() {
    let kinds = [
        AdminAction::Reboot { seconds: 5 },
        AdminAction::Shutdown { seconds: 5 },
        AdminAction::RebootOta { seconds: 5 },
        AdminAction::FactoryResetDevice,
        AdminAction::FactoryResetConfig,
        AdminAction::NodedbReset,
    ];
    for (i, a) in kinds.iter().enumerate() {
        assert!(!a.warning().is_empty());
        for b in &kinds[i + 1..] {
            assert_ne!(a.warning(), b.warning());
        }
    }
    assert_eq!(
        AdminAction::Reboot { seconds: 1 }.warning(),
        AdminAction::Reboot { seconds: 9 }.warning()
    );
}
