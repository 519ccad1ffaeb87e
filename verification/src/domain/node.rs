use vstd::prelude::*;

use crate::domain::ids::NodeId;

verus! {

/// Role a node announces for itself; unknown wire numbers are kept.
#[derive(Copy, Clone, Debug, PartialEq, Eq, Structural)]
pub enum NodeRole {
    Client,
    ClientMute,
    ClientHidden,
    ClientBase,
    Router,
    RouterClient,
    RouterLate,
    Repeater,
    Tracker,
    Sensor,
    Tak,
    TakTracker,
    LostAndFound,
    Unknown(i32),
}

/// A position in integer units of 1e-7 degrees (as the radio reports it),
/// with altitude in metres.
#[derive(Copy, Clone, Debug, PartialEq, Eq, Structural)]
pub struct Position {
    pub latitude_i: i32,
    pub longitude_i: i32,
    pub altitude_m: Option<i32>,
}

/// What is known about a mesh node. Voltage (V) and SNR (dB) are 32-bit
/// floating-point numbers kept as their IEEE-754 bit patterns; `last_heard_ms`
/// is milliseconds since the Unix epoch.
#[derive(Debug, PartialEq, Eq)]
pub struct Node {
    pub id: NodeId,
    pub long_name: String,
    pub short_name: String,
    pub role: NodeRole,
    pub battery_level: Option<u8>,
    pub voltage_v_bits: Option<u32>,
    pub snr_db_bits: Option<u32>,
    pub rssi_dbm: Option<i32>,
    pub hops_away: Option<u8>,
    pub last_heard_ms: Option<u64>,
    pub position: Option<Position>,
    pub is_favorite: bool,
    pub is_ignored: bool,
}

impl Clone for Node {
    fn clone(&self) -> (r: Self)
        ensures
            r == *self,
    {
        Node {
            id: self.id,
            long_name: self.long_name.clone(),
            short_name: self.short_name.clone(),
            role: self.role,
            battery_level: self.battery_level,
            voltage_v_bits: self.voltage_v_bits,
            snr_db_bits: self.snr_db_bits,
            rssi_dbm: self.rssi_dbm,
            hops_away: self.hops_away,
            last_heard_ms: self.last_heard_ms,
            position: self.position,
            is_favorite: self.is_favorite,
            is_ignored: self.is_ignored,
        }
    }
}

} // verus!
