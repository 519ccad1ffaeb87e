use mt::cli::{
    connect_step, connected_line, hex_preview, parse_command, scan_line, seconds_from,
    stream_summary, usage_text, CliCommand, CliLine, ConnectInput, ConnectPhase,
};
use mt::domain::ids::{BleAddress, NodeId};
use mt::domain::node::{Node, NodeRole};
use mt::domain::snapshot::DeviceSnapshot;
use mt::session::Event;
use mt::transport::ble::Discovered;

fn cli_node(id: u32) -> Node {
    Node {
        id: NodeId(id),
        long_name: String::new(),
        short_name: String::new(),
        role: NodeRole::Client,
        battery_level: None,
        voltage_v_bits: None,
        snr_db_bits: None,
        rssi_dbm: None,
        hops_away: None,
        last_heard_ms: None,
        position: None,
        is_favorite: false,
        is_ignored: false,
    }
}

fn ready_snapshot() -> DeviceSnapshot {
    let mut s = DeviceSnapshot::default();
    s.my_node = NodeId(1234);
    s.long_name = "Base".into();
    s.short_name = "BS".into();
    s.firmware_version = "2.5.6".into();
    s.nodes.insert(1, cli_node(1));
    s.nodes.insert(2, cli_node(2));
    s
}

fn text_of(line: Option<CliLine>) -> (bool, String) {
    match line {
        Some(CliLine::Stdout(s)) => (false, s),
        Some(CliLine::Stderr(s)) => (true, s),
        None => panic!("expected a line"),
    }
}

#[test]
fn arguments_to_commands() {
    let args = |v: &[&str]| v.iter().map(|s| s.to_string()).collect::<Vec<_>>();
    assert!(matches!(parse_command(&args(&["mt-cli", "scan"])), CliCommand::Scan));
    assert!(matches!(parse_command(&args(&["mt-cli", "connect", "AA"])), CliCommand::Connect(id) if id == "AA"));
    assert!(matches!(parse_command(&args(&["mt-cli", "pump", "BB"])), CliCommand::Pump(id) if id == "BB"));
    assert!(matches!(parse_command(&args(&["mt-cli", "connect"])), CliCommand::Usage));
    assert!(matches!(parse_command(&args(&["mt-cli"])), CliCommand::Usage));
    assert!(matches!(parse_command(&args(&["mt-cli", "dance"])), CliCommand::Usage));
    assert!(usage_text().starts_with("usage:\n  mt-cli scan"));
}

#[test]
fn seconds_settings() {
    assert_eq!(seconds_from(None, 30), 30);
    assert_eq!(seconds_from(Some("12"), 30), 12);
    assert_eq!(seconds_from(Some("+7"), 30), 7);
    assert_eq!(seconds_from(Some("-1"), 30), 30);
    assert_eq!(seconds_from(Some(""), 30), 30);
    assert_eq!(seconds_from(Some("99999999999999999999"), 30), 30);
}

#[test]
fn ready_line_and_summary() {
    let snap = ready_snapshot();
    assert_eq!(
        connected_line(&snap),
        "✓ Connected: node 1234 \"Base\" [BS] fw 2.5.6\n  nodes (initial): 2\n  channels (initial): 0"
    );
    assert_eq!(stream_summary(10, 3, 1), "post-ready stream (10s): +3 node updates, +1 channel updates");
    assert_eq!(stream_summary(0, 0, 0), "post-ready stream (0ns): +0 node updates, +0 channel updates");
}

#[test]
fn connect_run_happy_path() {
    let s = connect_step(ConnectPhase::WaitingReady, ConnectInput::Event(Event::Connecting), 30, 10);
    assert_eq!(s.phase, ConnectPhase::WaitingReady);
    assert_eq!(text_of(s.line), (false, "… Connecting".to_string()));
    let s = connect_step(ConnectPhase::WaitingReady, ConnectInput::Event(Event::Error("x".into())), 30, 10);
    assert_eq!(s.phase, ConnectPhase::WaitingReady);
    assert_eq!(text_of(s.line), (true, "error: x".to_string()));
    let s = connect_step(
        ConnectPhase::WaitingReady,
        ConnectInput::Event(Event::Connected(Box::new(ready_snapshot()))),
        30,
        10,
    );
    assert_eq!(s.phase, ConnectPhase::Streaming { nodes: 2, channels: 0 });
    let (err, text) = text_of(s.line);
    assert!(!err && text.starts_with("✓ Connected: node 1234"));
    let s = connect_step(s.phase, ConnectInput::Event(Event::NodeUpdated(cli_node(3))), 30, 10);
    assert_eq!(s.phase, ConnectPhase::Streaming { nodes: 3, channels: 0 });
    assert!(s.line.is_none());
    let s = connect_step(s.phase, ConnectInput::Event(Event::Connecting), 30, 10);
    assert_eq!(s.phase, ConnectPhase::Streaming { nodes: 3, channels: 0 });
    let s = connect_step(s.phase, ConnectInput::Ended, 30, 10);
    assert_eq!(s.phase, ConnectPhase::Finished { success: true });
    assert_eq!(
        text_of(s.line),
        (false, "post-ready stream (10s): +3 node updates, +0 channel updates".to_string())
    );
}

#[test]
fn connect_run_failures() {
    let s = connect_step(ConnectPhase::WaitingReady, ConnectInput::DeadlinePassed, 30, 10);
    assert_eq!(s.phase, ConnectPhase::Finished { success: false });
    assert_eq!(text_of(s.line), (true, "timed out waiting for Connected after 30s".to_string()));
    let s = connect_step(ConnectPhase::WaitingReady, ConnectInput::Ended, 30, 10);
    assert_eq!(text_of(s.line), (true, "event channel closed".to_string()));
    let s = connect_step(ConnectPhase::WaitingReady, ConnectInput::Event(Event::Disconnected), 30, 10);
    assert_eq!(s.phase, ConnectPhase::Finished { success: false });
    assert_eq!(text_of(s.line), (true, "disconnected before ready".to_string()));
    let s = connect_step(
        ConnectPhase::Streaming { nodes: 0, channels: 4 },
        ConnectInput::Event(Event::Disconnected),
        30,
        6,
    );
    assert_eq!(s.phase, ConnectPhase::Finished { success: true });
    assert_eq!(
        text_of(s.line),
        (false, "post-ready stream (6s): +0 node updates, +4 channel updates".to_string())
    );
}

#[test]
fn hex_previews() {
    assert_eq!(hex_preview(&[]), "");
    assert_eq!(hex_preview(&[0x00, 0xab, 0x1f]), "00ab1f");
    let long: Vec<u8> = (0..40).collect();
    let p = hex_preview(&long);
    assert_eq!(p.chars().count(), 65);
    assert!(p.starts_with("000102"));
    assert!(p.ends_with("1f…"));
    let exact: Vec<u8> = vec![0xff; 32];
    assert_eq!(hex_preview(&exact), "ff".repeat(32));
}

#[test]
fn scan_lines() {
    let d = Discovered {
        name: "Meshtastic_1a2b".into(),
        address: BleAddress::new("aa:bb:cc"),
        rssi_dbm: Some(-71),
        is_paired: true,
    };
    assert_eq!(scan_line(&d), "AA:BB:CC\tMeshtastic_1a2b\t-71 dBm\tconnected");
    let d = Discovered { name: "x".into(), address: BleAddress::new("01"), rssi_dbm: None, is_paired: false };
    assert_eq!(scan_line(&d), "01\tx\t? dBm");
}
