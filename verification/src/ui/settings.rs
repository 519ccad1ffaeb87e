use vstd::prelude::*;

use std::collections::HashSet;

use crate::domain::config::{
    BluetoothSettings, DeviceSettings, DisplaySettings, LoraSettings, NetworkSettings,
    PositionSettings, PowerSettings,
};
use crate::domain::config_export::{export_of, ConfigExport};
use crate::domain::snapshot::DeviceSnapshot;
use crate::session::commands::{AdminAction, Command};
use crate::text::{is_white, lemma_trimmed_nonempty, push_char, string_of, trim, trimmed};
use crate::ui::alerts::AlertConfig;

verus! {

broadcast use vstd::std_specs::hash::group_hash_axioms;

/// A section of the settings tab.
#[derive(Copy, Clone, Debug, Eq, PartialEq, Hash, Structural)]
pub enum Section {
    Owner,
    Lora,
    Device,
    Position,
    Power,
    Network,
    Display,
    Bluetooth,
    Mqtt,
    Telemetry,
    NeighborInfo,
    StoreForward,
    Security,
    ExtNotif,
    Canned,
    RangeTest,
    Backup,
    Alerts,
}

/// Which stored data the user asked to clear.
#[derive(Copy, Clone, Debug, Eq, PartialEq, Structural)]
pub enum PendingClear {
    Messages,
    Nodes,
    Tiles,
    All,
}

/// The number a section is recorded under.
pub open spec fn section_code_of(s: Section) -> u8 {
    match s {
        Section::Owner => 0,
        Section::Lora => 1,
        Section::Device => 2,
        Section::Position => 3,
        Section::Power => 4,
        Section::Network => 5,
        Section::Display => 6,
        Section::Bluetooth => 7,
        Section::Mqtt => 8,
        Section::Telemetry => 9,
        Section::NeighborInfo => 10,
        Section::StoreForward => 11,
        Section::Security => 12,
        Section::ExtNotif => 13,
        Section::Canned => 14,
        Section::RangeTest => 15,
        Section::Backup => 16,
        Section::Alerts => 17,
    }
}

/// The section recorded under `c`; the last one for numbers past the end.
spec fn section_of_code(c: u8) -> Section {
    match c {
        0 => Section::Owner,
        1 => Section::Lora,
        2 => Section::Device,
        3 => Section::Position,
        4 => Section::Power,
        5 => Section::Network,
        6 => Section::Display,
        7 => Section::Bluetooth,
        8 => Section::Mqtt,
        9 => Section::Telemetry,
        10 => Section::NeighborInfo,
        11 => Section::StoreForward,
        12 => Section::Security,
        13 => Section::ExtNotif,
        14 => Section::Canned,
        15 => Section::RangeTest,
        16 => Section::Backup,
        17 => Section::Alerts,
        _ => Section::Alerts,
    }
}

proof fn lemma_section_code(s: Section)
    ensures
        section_code_of(s) < 18,
        section_of_code(section_code_of(s)) == s,
{
}

/// The number a section is recorded under.
fn section_code(s: Section) -> (c: u8)
    ensures
        c == section_code_of(s),
{
    match s {
        Section::Owner => 0,
        Section::Lora => 1,
        Section::Device => 2,
        Section::Position => 3,
        Section::Power => 4,
        Section::Network => 5,
        Section::Display => 6,
        Section::Bluetooth => 7,
        Section::Mqtt => 8,
        Section::Telemetry => 9,
        Section::NeighborInfo => 10,
        Section::StoreForward => 11,
        Section::Security => 12,
        Section::ExtNotif => 13,
        Section::Canned => 14,
        Section::RangeTest => 15,
        Section::Backup => 16,
        Section::Alerts => 17,
    }
}

/// The sections with unsaved edits, recorded by number.
#[derive(Debug)]
pub struct DirtySet {
    codes: HashSet<u8>,
}

impl View for DirtySet {
    type V = Set<Section>;

    closed spec fn view(&self) -> Set<Section> {
        Set::new(|s: Section| self.codes@.contains(section_code_of(s)))
    }
}

impl DirtySet {
    #[verifier::type_invariant]
    spec fn codes_in_range(self) -> bool {
        forall|c: u8| self.codes@.contains(c) ==> c < 18
    }

    /// No section has unsaved edits.
    pub fn new() -> (r: Self)
        ensures
            r@ == Set::<Section>::empty(),
    {
        let r = DirtySet { codes: HashSet::new() };
        assert(r@ =~= Set::<Section>::empty());
        r
    }

    /// Whether section `s` has unsaved edits.
    pub fn is(&self, s: Section) -> (r: bool)
        ensures
            r == self@.contains(s),
    {
        self.codes.contains(&section_code(s))
    }

    /// Notes that section `s` has unsaved edits.
    pub fn mark(&mut self, s: Section)
        ensures
            final(self)@ == old(self)@.insert(s),
    {
        proof {
            use_type_invariant(&*self);
        }
        let c = section_code(s);
        proof {
            lemma_section_code(s);
        }
        let mut codes = HashSet::new();
        std::mem::swap(&mut codes, &mut self.codes);
        let _ = codes.insert(c);
        self.codes = codes;
        proof {
            assert forall|x: Section| #[trigger] self@.contains(x) <==> old(self)@.insert(s).contains(x) by {
                lemma_section_code(x);
            }
            assert(self@ =~= old(self)@.insert(s));
        }
    }

    /// Notes that section `s` has no unsaved edits any more.
    pub fn clear(&mut self, s: Section)
        ensures
            final(self)@ == old(self)@.remove(s),
    {
        proof {
            use_type_invariant(&*self);
        }
        let c = section_code(s);
        let mut codes = HashSet::new();
        std::mem::swap(&mut codes, &mut self.codes);
        let _ = codes.remove(&c);
        self.codes = codes;
        proof {
            assert forall|x: Section| #[trigger] self@.contains(x) <==> old(self)@.remove(s).contains(x) by {
                lemma_section_code(x);
                lemma_section_code(s);
            }
            assert(self@ =~= old(self)@.remove(s));
        }
    }
}

impl Default for DirtySet {
    fn default() -> (r: Self)
        ensures
            r@ == Set::<Section>::empty(),
    {
        DirtySet::new()
    }
}

impl Clone for DirtySet {
    fn clone(&self) -> (r: Self)
        ensures
            r@ == self@,
    {
        proof {
            use_type_invariant(self);
        }
        let mut codes: HashSet<u8> = HashSet::new();
        let mut c: u8 = 0;
        while c < 18
            invariant
                c <= 18,
                forall|d: u8| codes@.contains(d) <==> (d < c && self.codes@.contains(d)),
            decreases 18 - c,
        {
            if self.codes.contains(&c) {
                let _ = codes.insert(c);
            }
            c = c + 1;
        }
        let r = DirtySet { codes };
        proof {
            assert forall|x: Section| #[trigger] r@.contains(x) <==> self@.contains(x) by {
                lemma_section_code(x);
            }
            assert(r@ =~= self@);
        }
        r
    }
}

/// The name a section is reported with after saving.
pub open spec fn section_label_text(s: Section) -> Seq<char> {
    match s {
        Section::Owner => "owner"@,
        Section::Lora => "LoRa"@,
        Section::Device => "Device"@,
        Section::Position => "Position"@,
        Section::Power => "Power"@,
        Section::Network => "Network"@,
        Section::Display => "Display"@,
        Section::Bluetooth => "Bluetooth"@,
        Section::Mqtt => "MQTT"@,
        Section::Telemetry => "Telemetry module"@,
        Section::NeighborInfo => "Neighbor Info"@,
        Section::StoreForward => "Store & Forward"@,
        Section::Security => "Security"@,
        Section::ExtNotif => "External Notification"@,
        Section::Canned => "Canned Messages"@,
        Section::RangeTest => "Range Test"@,
        Section::Backup => "Backup"@,
        Section::Alerts => "Alerts"@,
    }
}

/// The name a section is reported with after saving.
pub fn section_label(s: Section) -> (r: &'static str)
    ensures
        r@ == section_label_text(s),
{
    match s {
        Section::Owner => "owner",
        Section::Lora => "LoRa",
        Section::Device => "Device",
        Section::Position => "Position",
        Section::Power => "Power",
        Section::Network => "Network",
        Section::Display => "Display",
        Section::Bluetooth => "Bluetooth",
        Section::Mqtt => "MQTT",
        Section::Telemetry => "Telemetry module",
        Section::NeighborInfo => "Neighbor Info",
        Section::StoreForward => "Store & Forward",
        Section::Security => "Security",
        Section::ExtNotif => "External Notification",
        Section::Canned => "Canned Messages",
        Section::RangeTest => "Range Test",
        Section::Backup => "Backup",
        Section::Alerts => "Alerts",
    }
}

/// `s` cut to its first `take` characters with an ellipsis, when longer.
pub open spec fn shortened(s: Seq<char>, take: nat) -> Seq<char> {
    if s.len() <= take {
        s
    } else {
        s.take(take as int).push('\u{2026}')
    }
}

/// `s` cut to its first `take` characters with an ellipsis, when longer.
pub fn shorten(s: &str, take: usize) -> (r: String)
    ensures
        r@ == shortened(s@, take as nat),
{
    let v = crate::text::chars_of(s);
    if v.len() <= take {
        return String::from_str(s);
    }
    let mut out = String::new();
    let mut i: usize = 0;
    while i < take
        invariant
            v@ == s@,
            take < v@.len(),
            i <= take,
            out@ == s@.take(i as int),
        decreases take - i,
    {
        push_char(&mut out, v[i]);
        i = i + 1;
        assert(out@ =~= s@.take(i as int));
    }
    push_char(&mut out, '\u{2026}');
    out
}

/// The values being edited in the settings tab. The fixed position is in
/// units of 1e-7 degrees, with the altitude in metres.
#[derive(Debug)]
pub struct Draft {
    pub long_name: String,
    pub short_name: String,
    pub lora: LoraSettings,
    pub device: DeviceSettings,
    pub position: PositionSettings,
    pub fixed_lat_i: i32,
    pub fixed_lon_i: i32,
    pub fixed_alt: i32,
    pub power: PowerSettings,
    pub network: NetworkSettings,
    pub display: DisplaySettings,
    pub bluetooth: BluetoothSettings,
}

impl Default for Draft {
    fn default() -> (r: Self)
        ensures
            r.long_name@.len() == 0 && r.short_name@.len() == 0,
            r.fixed_lat_i == 0 && r.fixed_lon_i == 0 && r.fixed_alt == 0,
    {
        Draft {
            long_name: String::new(),
            short_name: String::new(),
            lora: LoraSettings::default(),
            device: DeviceSettings::default(),
            position: PositionSettings::default(),
            fixed_lat_i: 0,
            fixed_lon_i: 0,
            fixed_alt: 0,
            power: PowerSettings::default(),
            network: NetworkSettings::default(),
            display: DisplaySettings::default(),
            bluetooth: BluetoothSettings::default(),
        }
    }
}

/// The settings tab.
#[derive(Debug)]
pub struct SettingsUi {
    pub draft: Draft,
    pub dirty: DirtySet,
    pub last_save: Option<String>,
    pub pending_clear: Option<PendingClear>,
    pub stored_messages: Option<i64>,
    pub stored_nodes: Option<i64>,
    pub stored_tile_bytes: Option<u64>,
    pub previous_fixed_enabled: bool,
    pub pending_admin: Option<AdminAction>,
    pub backup_import_open: bool,
    pub backup_import_text: String,
    pub backup_import_error: Option<String>,
    pub backup_last_action: Option<String>,
}

impl Default for SettingsUi {
    fn default() -> (r: Self)
        ensures
            r.dirty@ == Set::<Section>::empty(),
            r.last_save is None,
            r.pending_clear is None,
            r.pending_admin is None,
            !r.backup_import_open,
    {
        SettingsUi {
            draft: Draft::default(),
            dirty: DirtySet::new(),
            last_save: None,
            pending_clear: None,
            stored_messages: None,
            stored_nodes: None,
            stored_tile_bytes: None,
            previous_fixed_enabled: false,
            pending_admin: None,
            backup_import_open: false,
            backup_import_text: String::new(),
            backup_import_error: None,
            backup_last_action: None,
        }
    }
}

/// The owner names can be saved: both non-blank, the short one at most four
/// characters.
pub open spec fn owner_valid_spec(long_name: Seq<char>, short_name: Seq<char>) -> bool {
    trimmed(long_name).len() > 0 && trimmed(short_name).len() > 0 && short_name.len() <= 4
}

/// Owner names can be saved exactly when the long name and the short name
/// each have a character that is not white space and the short name has at
/// most four characters: a blank name is never saved.
pub proof fn lemma_owner_valid(long_name: Seq<char>, short_name: Seq<char>)
    ensures
        owner_valid_spec(long_name, short_name) <==> {
            &&& exists|i: int| 0 <= i < long_name.len() && !is_white(#[trigger] long_name[i])
            &&& exists|j: int| 0 <= j < short_name.len() && !is_white(#[trigger] short_name[j])
            &&& short_name.len() <= 4
        },
{
    lemma_trimmed_nonempty(long_name);
    lemma_trimmed_nonempty(short_name);
}

/// Whether the owner names being edited can be saved.
pub fn owner_valid(s: &SettingsUi) -> (r: bool)
    ensures
        r == owner_valid_spec(s.draft.long_name@, s.draft.short_name@),
{
    let l = trim(s.draft.long_name.as_str());
    let sh = trim(s.draft.short_name.as_str());
    let n = crate::text::chars_of(s.draft.short_name.as_str()).len();
    !l.as_str().is_empty() && !sh.as_str().is_empty() && n <= 4
}

/// The command that saves section `section` of the draft, for the sections
/// the radio takes a command for.
pub open spec fn section_command_ok(d: Draft, section: Section, r: Option<Command>) -> bool {
    match section {
        Section::Owner => r == Some(
            Command::SetOwner { long_name: d.long_name, short_name: d.short_name },
        ),
        Section::Lora => r == Some(Command::SetLora(d.lora)),
        Section::Device => r == Some(Command::SetDevice(d.device)),
        Section::Position => r == Some(Command::SetPosition(d.position)),
        Section::Power => r == Some(Command::SetPower(d.power)),
        Section::Network => r == Some(Command::SetNetwork(d.network)),
        Section::Display => r == Some(Command::SetDisplay(d.display)),
        Section::Bluetooth => r == Some(Command::SetBluetooth(d.bluetooth)),
        _ => r is None,
    }
}

/// The command that saves section `section` of the draft.
pub fn section_command(d: &Draft, section: Section) -> (r: Option<Command>)
    ensures
        section_command_ok(*d, section, r),
{
    match section {
        Section::Owner => Some(
            Command::SetOwner { long_name: d.long_name.clone(), short_name: d.short_name.clone() },
        ),
        Section::Lora => Some(Command::SetLora(d.lora.clone())),
        Section::Device => Some(Command::SetDevice(d.device.clone())),
        Section::Position => Some(Command::SetPosition(d.position.clone())),
        Section::Power => Some(Command::SetPower(d.power.clone())),
        Section::Network => Some(Command::SetNetwork(d.network.clone())),
        Section::Display => Some(Command::SetDisplay(d.display.clone())),
        Section::Bluetooth => Some(Command::SetBluetooth(d.bluetooth.clone())),
        _ => None,
    }
}

impl SettingsUi {
    /// One frame of a section's save row: an edit (`changed`) marks the
    /// section dirty; a click on its save button (`save_clicked`, only
    /// possible while dirty) gives the command that saves it, clears the
    /// mark and records the section as last saved.
    pub fn commit(&mut self, section: Section, changed: bool, save_clicked: bool) -> (r: Option<Command>)
        ensures
            ({
                let dirty = old(self).dirty@.contains(section) || changed;
                if save_clicked && dirty {
                    &&& section_command_ok(old(self).draft, section, r)
                    &&& final(self).dirty@ == (if changed {
                        old(self).dirty@.insert(section)
                    } else {
                        old(self).dirty@
                    }).remove(section)
                    &&& final(self).last_save matches Some(t) && t@ == section_label_text(section)
                } else {
                    &&& r is None
                    &&& final(self).dirty@ == if changed {
                        old(self).dirty@.insert(section)
                    } else {
                        old(self).dirty@
                    }
                    &&& final(self).last_save == old(self).last_save
                }
            }),
            final(self).draft == old(self).draft,
    {
        if changed {
            self.dirty.mark(section);
        }
        let is_dirty = self.dirty.is(section);
        if save_clicked && is_dirty {
            let cmd = section_command(&self.draft, section);
            self.dirty.clear(section);
            self.last_save = Some(string_of(section_label(section)));
            cmd
        } else {
            None
        }
    }
}

/// The commands that save the position section, in order: the position
/// settings; then the fixed coordinates when fixed position is on, or the
/// command that removes them when it was on before and is off now.
pub open spec fn save_position_commands(d: Draft, previous_fixed_enabled: bool) -> Seq<Command> {
    seq![Command::SetPosition(d.position)] + if d.position.fixed_position {
        seq![
            Command::SetFixedPosition {
                latitude_i: d.fixed_lat_i,
                longitude_i: d.fixed_lon_i,
                altitude_m: d.fixed_alt,
            },
        ]
    } else if previous_fixed_enabled {
        seq![Command::RemoveFixedPosition]
    } else {
        Seq::empty()
    }
}

impl SettingsUi {
    /// Saves the position section: gives its commands, remembers whether
    /// fixed position is now on, clears the section's mark and records it
    /// as last saved.
    pub fn save_position(&mut self) -> (r: Vec<Command>)
        ensures
            r@ == save_position_commands(old(self).draft, old(self).previous_fixed_enabled),
            final(self).previous_fixed_enabled == old(self).draft.position.fixed_position,
            final(self).dirty@ == old(self).dirty@.remove(Section::Position),
            final(self).last_save matches Some(t) && t@ == section_label_text(Section::Position),
            final(self).draft == old(self).draft,
    {
        let mut out: Vec<Command> = Vec::new();
        out.push(Command::SetPosition(self.draft.position.clone()));
        if self.draft.position.fixed_position {
            out.push(
                Command::SetFixedPosition {
                    latitude_i: self.draft.fixed_lat_i,
                    longitude_i: self.draft.fixed_lon_i,
                    altitude_m: self.draft.fixed_alt,
                },
            );
        } else if self.previous_fixed_enabled {
            out.push(Command::RemoveFixedPosition);
        }
        self.previous_fixed_enabled = self.draft.position.fixed_position;
        self.dirty.clear(Section::Position);
        self.last_save = Some(string_of(section_label(Section::Position)));
        assert(out@ =~= save_position_commands(old(self).draft, old(self).previous_fixed_enabled));
        out
    }
}

/// The rename an imported export asks for: one when it carries a name.
pub open spec fn owner_part(e: ConfigExport) -> Seq<Command> {
    if e.owner.long_name@.len() > 0 || e.owner.short_name@.len() > 0 {
        seq![Command::SetOwner { long_name: e.owner.long_name, short_name: e.owner.short_name }]
    } else {
        Seq::empty()
    }
}

/// The command for one configuration section of an export, when it carries
/// that section.
pub open spec fn section_part(e: ConfigExport, s: Section) -> Seq<Command> {
    match s {
        Section::Lora => match e.lora {
            Some(v) => seq![Command::SetLora(v)],
            None => Seq::empty(),
        },
        Section::Device => match e.device {
            Some(v) => seq![Command::SetDevice(v)],
            None => Seq::empty(),
        },
        Section::Position => match e.position {
            Some(v) => seq![Command::SetPosition(v)],
            None => Seq::empty(),
        },
        Section::Power => match e.power {
            Some(v) => seq![Command::SetPower(v)],
            None => Seq::empty(),
        },
        Section::Network => match e.network {
            Some(v) => seq![Command::SetNetwork(v)],
            None => Seq::empty(),
        },
        Section::Display => match e.display {
            Some(v) => seq![Command::SetDisplay(v)],
            None => Seq::empty(),
        },
        Section::Bluetooth => match e.bluetooth {
            Some(v) => seq![Command::SetBluetooth(v)],
            None => Seq::empty(),
        },
        _ => Seq::empty(),
    }
}

/// The commands that apply an imported export: renaming when it carries a
/// name, then each configuration section it carries, in the order LoRa,
/// device, position, power, network, display, Bluetooth.
pub open spec fn import_commands(e: ConfigExport) -> Seq<Command> {
    owner_part(e) + section_part(e, Section::Lora) + section_part(e, Section::Device)
        + section_part(e, Section::Position) + section_part(e, Section::Power) + section_part(
        e,
        Section::Network,
    ) + section_part(e, Section::Display) + section_part(e, Section::Bluetooth)
}

proof fn lemma_contains_concat(a: Seq<Command>, b: Seq<Command>, x: Command)
    ensures
        (a + b).contains(x) <==> a.contains(x) || b.contains(x),
{
    if a.contains(x) {
        let i = choose|i: int| 0 <= i < a.len() && a[i] == x;
        assert((a + b)[i] == x);
    }
    if b.contains(x) {
        let i = choose|i: int| 0 <= i < b.len() && b[i] == x;
        assert((a + b)[a.len() + i] == x);
    }
    if (a + b).contains(x) {
        let i = choose|i: int| 0 <= i < (a + b).len() && (a + b)[i] == x;
        if i < a.len() {
            assert(a[i] == x);
        } else {
            assert(b[i - a.len()] == x);
        }
    }
}

/// A command is among those an import asks for exactly when the rename or
/// one section's part holds it.
proof fn lemma_import_contains(e: ConfigExport, x: Command)
    ensures
        import_commands(e).contains(x) <==> (owner_part(e).contains(x) || section_part(
            e,
            Section::Lora,
        ).contains(x) || section_part(e, Section::Device).contains(x) || section_part(
            e,
            Section::Position,
        ).contains(x) || section_part(e, Section::Power).contains(x) || section_part(
            e,
            Section::Network,
        ).contains(x) || section_part(e, Section::Display).contains(x) || section_part(
            e,
            Section::Bluetooth,
        ).contains(x)),
{
    let o = owner_part(e);
    let p1 = section_part(e, Section::Lora);
    let p2 = section_part(e, Section::Device);
    let p3 = section_part(e, Section::Position);
    let p4 = section_part(e, Section::Power);
    let p5 = section_part(e, Section::Network);
    let p6 = section_part(e, Section::Display);
    let p7 = section_part(e, Section::Bluetooth);
    lemma_contains_concat(o, p1, x);
    lemma_contains_concat(o + p1, p2, x);
    lemma_contains_concat(o + p1 + p2, p3, x);
    lemma_contains_concat(o + p1 + p2 + p3, p4, x);
    lemma_contains_concat(o + p1 + p2 + p3 + p4, p5, x);
    lemma_contains_concat(o + p1 + p2 + p3 + p4 + p5, p6, x);
    lemma_contains_concat(o + p1 + p2 + p3 + p4 + p5 + p6, p7, x);
}

proof fn lemma_import_len(snap: DeviceSnapshot, e: ConfigExport)
    requires
        export_of(snap, e),
    ensures
        import_commands(e).len() == (if snap.long_name@.len() > 0 || snap.short_name@.len() > 0 {
            1int
        } else {
            0
        }) + (if snap.lora is Some { 1int } else { 0 }) + (if snap.device is Some {
            1int
        } else {
            0
        }) + (if snap.position is Some { 1int } else { 0 }) + (if snap.power is Some {
            1int
        } else {
            0
        }) + (if snap.network is Some { 1int } else { 0 }) + (if snap.display is Some {
            1int
        } else {
            0
        }) + (if snap.bluetooth is Some { 1int } else { 0 }),
{
}

proof fn lemma_import_owner(snap: DeviceSnapshot, e: ConfigExport)
    requires
        export_of(snap, e),
    ensures
        forall|l: String, sh: String|
            #[trigger] import_commands(e).contains(Command::SetOwner { long_name: l, short_name: sh })
                <==> (l == snap.long_name && sh == snap.short_name && (snap.long_name@.len() > 0
                || snap.short_name@.len() > 0)),
{
    assert forall|l: String, sh: String|
        #[trigger] import_commands(e).contains(Command::SetOwner { long_name: l, short_name: sh })
            <==> (l == snap.long_name && sh == snap.short_name && (snap.long_name@.len() > 0
            || snap.short_name@.len() > 0)) by {
        let x = Command::SetOwner { long_name: l, short_name: sh };
        lemma_import_contains(e, x);
        lemma_single_contains(owner_part(e), x);
    }
}

proof fn lemma_import_sections(snap: DeviceSnapshot, e: ConfigExport)
    requires
        export_of(snap, e),
    ensures
        forall|v: LoraSettings|
            #[trigger] import_commands(e).contains(Command::SetLora(v)) <==> snap.lora == Some(v),
        forall|v: DeviceSettings|
            #[trigger] import_commands(e).contains(Command::SetDevice(v)) <==> snap.device == Some(v),
        forall|v: PositionSettings|
            #[trigger] import_commands(e).contains(Command::SetPosition(v)) <==> snap.position
                == Some(v),
        forall|v: PowerSettings|
            #[trigger] import_commands(e).contains(Command::SetPower(v)) <==> snap.power == Some(v),
        forall|v: NetworkSettings|
            #[trigger] import_commands(e).contains(Command::SetNetwork(v)) <==> snap.network
                == Some(v),
        forall|v: DisplaySettings|
            #[trigger] import_commands(e).contains(Command::SetDisplay(v)) <==> snap.display
                == Some(v),
        forall|v: BluetoothSettings|
            #[trigger] import_commands(e).contains(Command::SetBluetooth(v)) <==> snap.bluetooth
                == Some(v),
{
    assert forall|v: LoraSettings|
        #[trigger] import_commands(e).contains(Command::SetLora(v)) <==> snap.lora == Some(v) by {
        lemma_import_contains(e, Command::SetLora(v));
        lemma_single_contains(section_part(e, Section::Lora), Command::SetLora(v));
    }
    assert forall|v: DeviceSettings|
        #[trigger] import_commands(e).contains(Command::SetDevice(v)) <==> snap.device == Some(v) by {
        lemma_import_contains(e, Command::SetDevice(v));
        lemma_single_contains(section_part(e, Section::Device), Command::SetDevice(v));
    }
    assert forall|v: PositionSettings|
        #[trigger] import_commands(e).contains(Command::SetPosition(v)) <==> snap.position == Some(v) by {
        lemma_import_contains(e, Command::SetPosition(v));
        lemma_single_contains(section_part(e, Section::Position), Command::SetPosition(v));
    }
    assert forall|v: PowerSettings|
        #[trigger] import_commands(e).contains(Command::SetPower(v)) <==> snap.power == Some(v) by {
        lemma_import_contains(e, Command::SetPower(v));
        lemma_single_contains(section_part(e, Section::Power), Command::SetPower(v));
    }
    assert forall|v: NetworkSettings|
        #[trigger] import_commands(e).contains(Command::SetNetwork(v)) <==> snap.network == Some(v) by {
        lemma_import_contains(e, Command::SetNetwork(v));
        lemma_single_contains(section_part(e, Section::Network), Command::SetNetwork(v));
    }
    assert forall|v: DisplaySettings|
        #[trigger] import_commands(e).contains(Command::SetDisplay(v)) <==> snap.display == Some(v) by {
        lemma_import_contains(e, Command::SetDisplay(v));
        lemma_single_contains(section_part(e, Section::Display), Command::SetDisplay(v));
    }
    assert forall|v: BluetoothSettings|
        #[trigger] import_commands(e).contains(Command::SetBluetooth(v)) <==> snap.bluetooth
            == Some(v) by {
        lemma_import_contains(e, Command::SetBluetooth(v));
        lemma_single_contains(section_part(e, Section::Bluetooth), Command::SetBluetooth(v));
    }
}

/// Importing the export of a radio asks for exactly what that radio
/// reported: a rename to its names when it has any, and one command per
/// configuration section it reported, carrying the reported value.
pub proof fn lemma_export_import(snap: DeviceSnapshot, e: ConfigExport)
    requires
        export_of(snap, e),
    ensures
        import_commands(e).len() == (if snap.long_name@.len() > 0 || snap.short_name@.len() > 0 {
            1int
        } else {
            0
        }) + (if snap.lora is Some { 1int } else { 0 }) + (if snap.device is Some {
            1int
        } else {
            0
        }) + (if snap.position is Some { 1int } else { 0 }) + (if snap.power is Some {
            1int
        } else {
            0
        }) + (if snap.network is Some { 1int } else { 0 }) + (if snap.display is Some {
            1int
        } else {
            0
        }) + (if snap.bluetooth is Some { 1int } else { 0 }),
        forall|l: String, sh: String|
            #[trigger] import_commands(e).contains(Command::SetOwner { long_name: l, short_name: sh })
                <==> (l == snap.long_name && sh == snap.short_name && (snap.long_name@.len() > 0
                || snap.short_name@.len() > 0)),
        forall|v: LoraSettings|
            #[trigger] import_commands(e).contains(Command::SetLora(v)) <==> snap.lora == Some(v),
        forall|v: DeviceSettings|
            #[trigger] import_commands(e).contains(Command::SetDevice(v)) <==> snap.device == Some(v),
        forall|v: PositionSettings|
            #[trigger] import_commands(e).contains(Command::SetPosition(v)) <==> snap.position
                == Some(v),
        forall|v: PowerSettings|
            #[trigger] import_commands(e).contains(Command::SetPower(v)) <==> snap.power == Some(v),
        forall|v: NetworkSettings|
            #[trigger] import_commands(e).contains(Command::SetNetwork(v)) <==> snap.network
                == Some(v),
        forall|v: DisplaySettings|
            #[trigger] import_commands(e).contains(Command::SetDisplay(v)) <==> snap.display
                == Some(v),
        forall|v: BluetoothSettings|
            #[trigger] import_commands(e).contains(Command::SetBluetooth(v)) <==> snap.bluetooth
                == Some(v),
{
    lemma_import_len(snap, e);
    lemma_import_owner(snap, e);
    lemma_import_sections(snap, e);
}

/// A sequence of at most one command holds `x` exactly when its command is
/// `x`.
proof fn lemma_single_contains(s: Seq<Command>, x: Command)
    requires
        s.len() <= 1,
    ensures
        s.contains(x) <==> (s.len() == 1 && s[0] == x),
{
    if s.len() == 1 && s[0] == x {
        assert(s[0] == x);
    }
}

/// The commands that apply an imported export.
#[verifier::rlimit(60)]
pub fn dispatch_import(export: &ConfigExport) -> (r: Vec<Command>)
    ensures
        r@ == import_commands(*export),
{
    let mut out: Vec<Command> = Vec::new();
    if !export.owner.long_name.as_str().is_empty() || !export.owner.short_name.as_str().is_empty() {
        out.push(
            Command::SetOwner {
                long_name: export.owner.long_name.clone(),
                short_name: export.owner.short_name.clone(),
            },
        );
    }
    let ghost e = *export;
    let ghost p0 = if e.owner.long_name@.len() > 0 || e.owner.short_name@.len() > 0 {
        seq![Command::SetOwner { long_name: e.owner.long_name, short_name: e.owner.short_name }]
    } else {
        Seq::<Command>::empty()
    };
    assert(out@ =~= p0);
    match &export.lora {
        Some(v) => out.push(Command::SetLora(v.clone())),
        None => {},
    }
    let ghost p1 = p0 + match e.lora {
        Some(v) => seq![Command::SetLora(v)],
        None => Seq::<Command>::empty(),
    };
    assert(out@ =~= p1);
    match &export.device {
        Some(v) => out.push(Command::SetDevice(v.clone())),
        None => {},
    }
    let ghost p2 = p1 + match e.device {
        Some(v) => seq![Command::SetDevice(v)],
        None => Seq::<Command>::empty(),
    };
    assert(out@ =~= p2);
    match &export.position {
        Some(v) => out.push(Command::SetPosition(v.clone())),
        None => {},
    }
    let ghost p3 = p2 + match e.position {
        Some(v) => seq![Command::SetPosition(v)],
        None => Seq::<Command>::empty(),
    };
    assert(out@ =~= p3);
    match &export.power {
        Some(v) => out.push(Command::SetPower(v.clone())),
        None => {},
    }
    let ghost p4 = p3 + match e.power {
        Some(v) => seq![Command::SetPower(v)],
        None => Seq::<Command>::empty(),
    };
    assert(out@ =~= p4);
    match &export.network {
        Some(v) => out.push(Command::SetNetwork(v.clone())),
        None => {},
    }
    let ghost p5 = p4 + match e.network {
        Some(v) => seq![Command::SetNetwork(v)],
        None => Seq::<Command>::empty(),
    };
    assert(out@ =~= p5);
    match &export.display {
        Some(v) => out.push(Command::SetDisplay(v.clone())),
        None => {},
    }
    let ghost p6 = p5 + match e.display {
        Some(v) => seq![Command::SetDisplay(v)],
        None => Seq::<Command>::empty(),
    };
    assert(out@ =~= p6);
    match &export.bluetooth {
        Some(v) => out.push(Command::SetBluetooth(v.clone())),
        None => {},
    }
    assert(out@ =~= import_commands(e));
    out
}

fn sync_lora(draft: &mut LoraSettings, dirty: bool, reported: &Option<LoraSettings>)
    ensures
        *final(draft) == if !dirty && reported is Some {
            reported->0
        } else {
            *old(draft)
        },
{
    if !dirty {
        match reported {
            Some(v) => *draft = v.clone(),
            None => {},
        }
    }
}

fn sync_device(draft: &mut DeviceSettings, dirty: bool, reported: &Option<DeviceSettings>)
    ensures
        *final(draft) == if !dirty && reported is Some {
            reported->0
        } else {
            *old(draft)
        },
{
    if !dirty {
        match reported {
            Some(v) => *draft = v.clone(),
            None => {},
        }
    }
}

fn sync_position(draft: &mut PositionSettings, dirty: bool, reported: &Option<PositionSettings>)
    ensures
        *final(draft) == if !dirty && reported is Some {
            reported->0
        } else {
            *old(draft)
        },
{
    if !dirty {
        match reported {
            Some(v) => *draft = v.clone(),
            None => {},
        }
    }
}

fn sync_power(draft: &mut PowerSettings, dirty: bool, reported: &Option<PowerSettings>)
    ensures
        *final(draft) == if !dirty && reported is Some {
            reported->0
        } else {
            *old(draft)
        },
{
    if !dirty {
        match reported {
            Some(v) => *draft = v.clone(),
            None => {},
        }
    }
}

fn sync_network(draft: &mut NetworkSettings, dirty: bool, reported: &Option<NetworkSettings>)
    ensures
        *final(draft) == if !dirty && reported is Some {
            reported->0
        } else {
            *old(draft)
        },
{
    if !dirty {
        match reported {
            Some(v) => *draft = v.clone(),
            None => {},
        }
    }
}

fn sync_display(draft: &mut DisplaySettings, dirty: bool, reported: &Option<DisplaySettings>)
    ensures
        *final(draft) == if !dirty && reported is Some {
            reported->0
        } else {
            *old(draft)
        },
{
    if !dirty {
        match reported {
            Some(v) => *draft = v.clone(),
            None => {},
        }
    }
}

fn sync_bluetooth(draft: &mut BluetoothSettings, dirty: bool, reported: &Option<BluetoothSettings>)
    ensures
        *final(draft) == if !dirty && reported is Some {
            reported->0
        } else {
            *old(draft)
        },
{
    if !dirty {
        match reported {
            Some(v) => *draft = v.clone(),
            None => {},
        }
    }
}

/// Takes the radio's current values into the draft for every section
/// without unsaved edits: the owner names from the radio's own node record
/// (or the snapshot's names without one), each configuration section the
/// radio reported, and the fixed position from the radio's own position.
pub fn sync_from_snapshot(snapshot: &DeviceSnapshot, s: &mut SettingsUi)
    ensures
        final(s).dirty@ == old(s).dirty@,
        !old(s).dirty@.contains(Section::Owner) ==> if snapshot.nodes@.contains_key(snapshot.my_node.0) {
            final(s).draft.long_name == snapshot.nodes@[snapshot.my_node.0].long_name
                && final(s).draft.short_name == snapshot.nodes@[snapshot.my_node.0].short_name
        } else {
            final(s).draft.long_name == snapshot.long_name && final(s).draft.short_name
                == snapshot.short_name
        },
        old(s).dirty@.contains(Section::Owner) ==> final(s).draft.long_name == old(s).draft.long_name
            && final(s).draft.short_name == old(s).draft.short_name,
        final(s).draft.lora == if !old(s).dirty@.contains(Section::Lora) && snapshot.lora is Some {
            snapshot.lora->0
        } else {
            old(s).draft.lora
        },
        final(s).draft.device == if !old(s).dirty@.contains(Section::Device) && snapshot.device is Some {
            snapshot.device->0
        } else {
            old(s).draft.device
        },
        final(s).draft.position == if !old(s).dirty@.contains(Section::Position)
            && snapshot.position is Some {
            snapshot.position->0
        } else {
            old(s).draft.position
        },
        final(s).draft.power == if !old(s).dirty@.contains(Section::Power) && snapshot.power is Some {
            snapshot.power->0
        } else {
            old(s).draft.power
        },
        final(s).draft.network == if !old(s).dirty@.contains(Section::Network)
            && snapshot.network is Some {
            snapshot.network->0
        } else {
            old(s).draft.network
        },
        final(s).draft.display == if !old(s).dirty@.contains(Section::Display)
            && snapshot.display is Some {
            snapshot.display->0
        } else {
            old(s).draft.display
        },
        final(s).draft.bluetooth == if !old(s).dirty@.contains(Section::Bluetooth)
            && snapshot.bluetooth is Some {
            snapshot.bluetooth->0
        } else {
            old(s).draft.bluetooth
        },
        !old(s).dirty@.contains(Section::Position) ==> {
            &&& (snapshot.nodes@.contains_key(snapshot.my_node.0) && snapshot.nodes@[snapshot.my_node.0].position is Some) ==> {
                let p = snapshot.nodes@[snapshot.my_node.0].position->0;
                &&& final(s).draft.fixed_lat_i == p.latitude_i
                &&& final(s).draft.fixed_lon_i == p.longitude_i
                &&& final(s).draft.fixed_alt == match p.altitude_m {
                    Some(a) => a,
                    None => 0i32,
                }
            }
            &&& final(s).previous_fixed_enabled == (snapshot.position matches Some(p) && p.fixed_position)
        },
{
    if !s.dirty.is(Section::Owner) {
        match snapshot.nodes.get(&snapshot.my_node.0) {
            Some(me) => {
                s.draft.long_name = me.long_name.clone();
                s.draft.short_name = me.short_name.clone();
            },
            None => {
                s.draft.long_name = snapshot.long_name.clone();
                s.draft.short_name = snapshot.short_name.clone();
            },
        }
    }
    let dirty = s.dirty.is(Section::Lora);
    sync_lora(&mut s.draft.lora, dirty, &snapshot.lora);
    let dirty = s.dirty.is(Section::Device);
    sync_device(&mut s.draft.device, dirty, &snapshot.device);
    let dirty = s.dirty.is(Section::Position);
    sync_position(&mut s.draft.position, dirty, &snapshot.position);
    let dirty = s.dirty.is(Section::Power);
    sync_power(&mut s.draft.power, dirty, &snapshot.power);
    let dirty = s.dirty.is(Section::Network);
    sync_network(&mut s.draft.network, dirty, &snapshot.network);
    let dirty = s.dirty.is(Section::Display);
    sync_display(&mut s.draft.display, dirty, &snapshot.display);
    let dirty = s.dirty.is(Section::Bluetooth);
    sync_bluetooth(&mut s.draft.bluetooth, dirty, &snapshot.bluetooth);
    if !s.dirty.is(Section::Position) {
        match snapshot.nodes.get(&snapshot.my_node.0) {
            Some(me) => match me.position {
                Some(p) => {
                    s.draft.fixed_lat_i = p.latitude_i;
                    s.draft.fixed_lon_i = p.longitude_i;
                    s.draft.fixed_alt = match p.altitude_m {
                        Some(a) => a,
                        None => 0,
                    };
                },
                None => {},
            },
            None => {},
        }
        s.previous_fixed_enabled = match &snapshot.position {
            Some(p) => p.fixed_position,
            None => false,
        };
    }
}

/// What the alerts section edits: the alert rules and whether they changed.
pub struct AlertsCtx<'a> {
    pub config: &'a mut AlertConfig,
    pub dirty: &'a mut bool,
}

} // verus!
