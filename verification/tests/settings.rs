use mt::domain::channel::{Channel, ChannelRole};
use mt::domain::config::{LoraSettings, PositionSettings};
use mt::domain::config_export::{check_version, export_snapshot, ImportError, Owner, EXPORT_VERSION};
use mt::domain::ids::{ChannelIndex, NodeId};
use mt::domain::node::{Node, NodeRole, Position};
use mt::domain::snapshot::DeviceSnapshot;
use mt::session::commands::Command;
use mt::ui::channels::{empty_channel, random_psk, row_title, save_warning, ChannelsUi, PSK_BYTES};
use mt::ui::settings::{
    dispatch_import, owner_valid, section_command, section_label, shorten, sync_from_snapshot,
    DirtySet, Section, SettingsUi,
};

fn settings_node(id: u32, long: &str, short: &str) -> Node {
    Node {
        id: NodeId(id),
        long_name: long.into(),
        short_name: short.into(),
        role: NodeRole::Client,
        battery_level: None,
        voltage_v_bits: None,
        snr_db_bits: None,
        rssi_dbm: None,
        hops_away: None,
        last_heard_ms: None,
        position: None,
        is_favorite: false,
        is_ignored: false,
    }
}

#[test]
fn dirty_set_marks_and_clears() {
    let mut d = DirtySet::new();
    assert!(!d.is(Section::Lora));
    d.mark(Section::Lora);
    d.mark(Section::Lora);
    d.mark(Section::Power);
    assert!(d.is(Section::Lora) && d.is(Section::Power));
    d.clear(Section::Lora);
    assert!(!d.is(Section::Lora));
    assert!(d.is(Section::Power));
}

#[test]
fn section_labels() {
    assert_eq!(section_label(Section::Owner), "owner");
    assert_eq!(section_label(Section::Lora), "LoRa");
    assert_eq!(section_label(Section::StoreForward), "Store & Forward");
}

#[test]
fn shorten_adds_ellipsis() {
    assert_eq!(shorten("abcdef", 3), "abc…");
    assert_eq!(shorten("abc", 3), "abc");
    assert_eq!(shorten("héllo", 2), "hé…");
}

#[test]
fn owner_validation() {
    let mut s = SettingsUi::default();
    s.draft.long_name = "Base".into();
    s.draft.short_name = "BS".into();
    assert!(owner_valid(&s));
    s.draft.short_name = "TOOLONG".into();
    assert!(!owner_valid(&s));
    s.draft.short_name = "   ".into();
    assert!(!owner_valid(&s));
}

#[test]
fn commit_saves_only_dirty_sections() {
    let mut s = SettingsUi::default();
    assert!(s.commit(Section::Lora, false, true).is_none());
    assert!(s.commit(Section::Lora, true, false).is_none());
    assert!(s.dirty.is(Section::Lora));
    assert!(matches!(s.commit(Section::Lora, false, true), Some(Command::SetLora(_))));
    assert!(!s.dirty.is(Section::Lora));
    assert_eq!(s.last_save.as_deref(), Some("LoRa"));
    assert!(s.commit(Section::Alerts, true, true).is_none());
}

#[test]
fn section_commands() {
    let mut s = SettingsUi::default();
    s.draft.long_name = "L".into();
    s.draft.short_name = "S".into();
    assert!(matches!(
        section_command(&s.draft, Section::Owner),
        Some(Command::SetOwner { long_name, short_name }) if long_name == "L" && short_name == "S"
    ));
    assert!(section_command(&s.draft, Section::Mqtt).is_none());
}

#[test]
fn save_position_with_and_without_fixed() {
    let mut s = SettingsUi::default();
    s.draft.position.fixed_position = true;
    s.draft.fixed_lat_i = 10;
    s.draft.fixed_lon_i = 20;
    s.draft.fixed_alt = 30;
    s.dirty.mark(Section::Position);
    let cmds = s.save_position();
    assert_eq!(cmds.len(), 2);
    assert!(matches!(cmds[1], Command::SetFixedPosition { latitude_i: 10, longitude_i: 20, altitude_m: 30 }));
    assert!(s.previous_fixed_enabled);
    assert!(!s.dirty.is(Section::Position));
    s.draft.position.fixed_position = false;
    let cmds = s.save_position();
    assert!(matches!(cmds[1], Command::RemoveFixedPosition));
    let cmds = s.save_position();
    assert_eq!(cmds.len(), 1);
}

#[test]
fn sync_keeps_dirty_sections() {
    let mut snap = DeviceSnapshot::default();
    snap.my_node = NodeId(1);
    let mut me = settings_node(1, "Radio", "RD");
    me.position = Some(Position { latitude_i: 5, longitude_i: 6, altitude_m: None });
    snap.nodes.insert(1, me);
    let mut lora = LoraSettings::default();
    lora.hop_limit = 5;
    snap.lora = Some(lora);
    let mut pos = PositionSettings::default();
    pos.fixed_position = true;
    snap.position = Some(pos);
    let mut s = SettingsUi::default();
    s.dirty.mark(Section::Owner);
    s.draft.long_name = "Mine".into();
    sync_from_snapshot(&snap, &mut s);
    assert_eq!(s.draft.long_name, "Mine");
    assert_eq!(s.draft.lora.hop_limit, 5);
    assert_eq!(s.draft.fixed_lat_i, 5);
    assert_eq!(s.draft.fixed_alt, 0);
    assert!(s.previous_fixed_enabled);
    s.dirty.clear(Section::Owner);
    sync_from_snapshot(&snap, &mut s);
    assert_eq!(s.draft.long_name, "Radio");
    assert_eq!(s.draft.short_name, "RD");
}

#[test]
fn export_and_import_commands() {
    let mut snap = DeviceSnapshot::default();
    snap.long_name = "Radio".into();
    snap.short_name = "RD".into();
    snap.lora = Some(LoraSettings::default());
    let export = export_snapshot(&snap);
    assert_eq!(export.version, EXPORT_VERSION);
    assert_eq!(export.owner.long_name, "Radio");
    let cmds = dispatch_import(&export);
    assert_eq!(cmds.len(), 2);
    assert!(matches!(&cmds[0], Command::SetOwner { .. }));
    assert!(matches!(&cmds[1], Command::SetLora(_)));
    let mut nameless = export;
    nameless.owner = Owner::default();
    assert_eq!(dispatch_import(&nameless).len(), 1);
}

#[test]
fn import_version_is_checked() {
    let snap = DeviceSnapshot::default();
    let mut e = export_snapshot(&snap);
    assert!(check_version(e).is_ok());
    e = export_snapshot(&snap);
    e.version = 2;
    match check_version(e) {
        Err(err @ ImportError::Version { found: 2 }) => {
            assert_eq!(err.message(), "unsupported export version 2; this build understands v1")
        }
        other => panic!("unexpected {other:?}"),
    }
}

#[test]
fn channel_editor_rows() {
    let c = empty_channel(0);
    assert_eq!(c.role, ChannelRole::Primary);
    assert_eq!(row_title(&c, false), "#0  Primary  ·  (unnamed)");
    let d = empty_channel(3);
    assert_eq!(d.role, ChannelRole::Disabled);
    assert_eq!(row_title(&d, true), "#3  Disabled  ·  (empty) *");
    assert!(save_warning(0, &c).starts_with("Changing the Primary channel"));
    assert!(save_warning(3, &d).starts_with("Disabling a channel"));
    let key = random_psk();
    assert_eq!(key.len(), PSK_BYTES);
    assert_ne!(key, random_psk());
}

#[test]
fn channel_drafts_follow_snapshot() {
    let mut ui = ChannelsUi::default();
    let mut snap = DeviceSnapshot::default();
    snap.channels.push(Channel {
        index: ChannelIndex::new(1).unwrap(),
        role: ChannelRole::Secondary,
        name: "team".into(),
        psk: vec![1],
        uplink_enabled: false,
        downlink_enabled: false,
        position_precision: 0,
    });
    ui.sync_from_snapshot(&snap);
    assert_eq!(ui.drafts[&1].name, "team");
    let mut edited = ui.drafts[&1].clone();
    edited.name = "renamed".into();
    ui.mark_changed(1, edited);
    ui.sync_from_snapshot(&snap);
    assert_eq!(ui.drafts[&1].name, "renamed");
    ui.discard(1);
    assert!(!ui.dirty.contains(&1));
    ui.toggle_expanded(2, true);
    assert!(ui.expanded.contains(&2));
}
