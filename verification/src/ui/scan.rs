use vstd::prelude::*;

use crate::domain::ids::BleAddress;
use crate::domain::profile::{profile_key, ConnectionProfile};
use crate::session::commands::Command;
use crate::text::str_eq;
use crate::ui::reconnect::ReconnectUi;
use crate::transport::ble::Discovered;

verus! {

/// One row of the scan window.
#[derive(Debug)]
pub struct DiscoveredRow {
    pub name: String,
    pub address: BleAddress,
    pub rssi_dbm: Option<i16>,
    pub is_connected: bool,
}

impl From<Discovered> for DiscoveredRow {
    fn from(d: Discovered) -> (r: Self)
        ensures
            r == (DiscoveredRow {
                name: d.name,
                address: d.address,
                rssi_dbm: d.rssi_dbm,
                is_connected: d.is_paired,
            }),
    {
        DiscoveredRow {
            name: d.name,
            address: d.address,
            rssi_dbm: d.rssi_dbm,
            is_connected: d.is_paired,
        }
    }
}

impl vstd::std_specs::convert::FromSpecImpl<Discovered> for DiscoveredRow {
    open spec fn obeys_from_spec() -> bool {
        true
    }

    open spec fn from_spec(d: Discovered) -> DiscoveredRow {
        DiscoveredRow { name: d.name, address: d.address, rssi_dbm: d.rssi_dbm, is_connected: d.is_paired }
    }
}

/// Position of the first row with address `a` at or after `from`, or -1.
pub open spec fn row_with_address(rows: Seq<DiscoveredRow>, a: Seq<char>, from: int) -> int
    decreases rows.len() - from,
{
    if from < 0 || from >= rows.len() {
        -1
    } else if rows[from].address@ == a {
        from
    } else {
        row_with_address(rows, a, from + 1)
    }
}

/// The rows after a sighting `row`: it replaces the first row with the same
/// address, or is appended.
pub open spec fn rows_upserted(rows: Seq<DiscoveredRow>, row: DiscoveredRow) -> Seq<DiscoveredRow> {
    let i = row_with_address(rows, row.address@, 0);
    if i < 0 {
        rows.push(row)
    } else {
        rows.update(i, row)
    }
}

/// Records a sighting: a radio seen again replaces its row, a new one is
/// appended.
pub fn upsert_row(rows: &mut Vec<DiscoveredRow>, row: DiscoveredRow)
    ensures
        final(rows)@ == rows_upserted(old(rows)@, row),
{
    let ghost before = rows@;
    let ghost r0 = row;
    let mut i: usize = 0;
    while i < rows.len()
        invariant
            rows@ == before,
            before == old(rows)@,
            r0 == row,
            i <= rows@.len(),
            row_with_address(before, row.address@, 0) == row_with_address(before, row.address@, i as int),
        decreases rows@.len() - i,
    {
        if str_eq(rows[i].address.as_str(), row.address.as_str()) {
            assert(row_with_address(before, row.address@, i as int) == i);
            rows.set(i, row);
            assert(rows@ =~= before.update(i as int, r0));
            assert(rows@ == rows_upserted(before, r0));
            return;
        }
        i = i + 1;
    }
    rows.push(row);
}

/// Whether some saved profile already has the key of `p`.
pub open spec fn key_saved(profiles: Seq<ConnectionProfile>, p: ConnectionProfile) -> bool {
    exists|i: int| 0 <= i < profiles.len() && profile_key(#[trigger] profiles[i]) == profile_key(p)
}

/// Whether `profiles` holds a profile whose key is `key`, by a walk.
fn has_key(profiles: &Vec<ConnectionProfile>, key: &str) -> (r: bool)
    ensures
        r == exists|i: int| 0 <= i < profiles@.len() && profile_key(#[trigger] profiles@[i]) == key@,
{
    let mut i: usize = 0;
    while i < profiles.len()
        invariant
            i <= profiles@.len(),
            forall|k: int| 0 <= k < i ==> profile_key(#[trigger] profiles@[k]) != key@,
        decreases profiles@.len() - i,
    {
        let k = profiles[i].key();
        if str_eq(k.as_str(), key) {
            return true;
        }
        i = i + 1;
    }
    false
}

/// The user picked a scanned radio, to connect to it (`connect`) or only to
/// save it. Its BLE profile is saved unless a saved profile has the same
/// key; the first result says whether one was added (the list needs
/// saving). On connect, the reconnect loop is armed for it as by
/// `mark_user_connect` and the command to connect is given back; a save
/// leaves the loop alone and gives no command.
pub fn choose_scanned(
    profiles: &mut Vec<ConnectionProfile>,
    reconnect: &mut ReconnectUi,
    name: String,
    address: BleAddress,
    connect: bool,
) -> (r: (bool, Option<Command>))
    ensures
        ({
            let p = ConnectionProfile::Ble { name, address };
            &&& r.0 == !key_saved(old(profiles)@, p)
            &&& final(profiles)@ == if r.0 {
                old(profiles)@.push(p)
            } else {
                old(profiles)@
            }
            &&& connect ==> {
                &&& final(reconnect).profile == Some(p)
                &&& final(reconnect).last_active matches Some(k) && k@ == profile_key(p)
                &&& final(reconnect).attempt == 0
                &&& final(reconnect).next_at_ms is None
                &&& !final(reconnect).intentional_disconnect
                &&& r.1 == Some(Command::Connect(p))
            }
            &&& !connect ==> *final(reconnect) == *old(reconnect) && r.1 is None
        }),
{
    let profile = ConnectionProfile::Ble { name, address };
    let key = profile.key();
    let known = has_key(profiles, key.as_str());
    let added = !known;
    if added {
        profiles.push(profile.clone());
    }
    if connect {
        reconnect.mark_user_connect(&profile);
        (added, Some(Command::Connect(profile)))
    } else {
        (added, None)
    }
}

} // verus!
