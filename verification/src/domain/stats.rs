use vstd::prelude::*;

verus! {

/// Device-level mesh statistics. Voltage and the utilisation percentages are
/// 32-bit floating-point numbers kept as their IEEE-754 bit patterns.
#[derive(Copy, Clone, Debug, PartialEq, Eq, Structural)]
pub struct MeshStats {
    pub battery_level: Option<u8>,
    pub voltage_v_bits: Option<u32>,
    pub channel_utilization_bits: Option<u32>,
    pub air_util_tx_bits: Option<u32>,
    pub uptime_seconds: Option<u32>,
    pub num_tx_relay: Option<u32>,
    pub num_packets_tx: Option<u32>,
    pub num_packets_rx: Option<u32>,
    pub num_online_nodes: Option<u32>,
}

impl Default for MeshStats {
    fn default() -> (r: Self)
        ensures
            r == no_stats(),
    {
        MeshStats {
            battery_level: None,
            voltage_v_bits: None,
            channel_utilization_bits: None,
            air_util_tx_bits: None,
            uptime_seconds: None,
            num_tx_relay: None,
            num_packets_tx: None,
            num_packets_rx: None,
            num_online_nodes: None,
        }
    }
}

/// Statistics with nothing known.
pub open spec fn no_stats() -> MeshStats {
    MeshStats {
        battery_level: None,
        voltage_v_bits: None,
        channel_utilization_bits: None,
        air_util_tx_bits: None,
        uptime_seconds: None,
        num_tx_relay: None,
        num_packets_tx: None,
        num_packets_rx: None,
        num_online_nodes: None,
    }
}

/// The newer reading where there is one, else the older.
pub open spec fn newer<T>(old: Option<T>, new: Option<T>) -> Option<T> {
    if new is Some {
        new
    } else {
        old
    }
}

/// `a` updated with every field `b` knows.
pub open spec fn merged(a: MeshStats, b: MeshStats) -> MeshStats {
    MeshStats {
        battery_level: newer(a.battery_level, b.battery_level),
        voltage_v_bits: newer(a.voltage_v_bits, b.voltage_v_bits),
        channel_utilization_bits: newer(a.channel_utilization_bits, b.channel_utilization_bits),
        air_util_tx_bits: newer(a.air_util_tx_bits, b.air_util_tx_bits),
        uptime_seconds: newer(a.uptime_seconds, b.uptime_seconds),
        num_tx_relay: newer(a.num_tx_relay, b.num_tx_relay),
        num_packets_tx: newer(a.num_packets_tx, b.num_packets_tx),
        num_packets_rx: newer(a.num_packets_rx, b.num_packets_rx),
        num_online_nodes: newer(a.num_online_nodes, b.num_online_nodes),
    }
}

fn pick<T: Copy>(old: Option<T>, new: Option<T>) -> (r: Option<T>)
    ensures
        r == newer(old, new),
{
    match new {
        Some(v) => Some(v),
        None => old,
    }
}

impl MeshStats {
    /// Overwrites each field with `other`'s value where `other` has one;
    /// fields `other` does not know are kept.
    pub fn merge(&mut self, other: &Self)
        ensures
            *final(self) == merged(*old(self), *other),
    {
        self.battery_level = pick(self.battery_level, other.battery_level);
        self.voltage_v_bits = pick(self.voltage_v_bits, other.voltage_v_bits);
        self.channel_utilization_bits = pick(self.channel_utilization_bits, other.channel_utilization_bits);
        self.air_util_tx_bits = pick(self.air_util_tx_bits, other.air_util_tx_bits);
        self.uptime_seconds = pick(self.uptime_seconds, other.uptime_seconds);
        self.num_tx_relay = pick(self.num_tx_relay, other.num_tx_relay);
        self.num_packets_tx = pick(self.num_packets_tx, other.num_packets_tx);
        self.num_packets_rx = pick(self.num_packets_rx, other.num_packets_rx);
        self.num_online_nodes = pick(self.num_online_nodes, other.num_online_nodes);
    }
}

/// Merging is idempotent: merging the same update twice changes nothing more.
pub proof fn lemma_merge_idempotent(a: MeshStats, b: MeshStats)
    ensures
        merged(merged(a, b), b) == merged(a, b),
{
}

/// Merging an empty update changes nothing.
pub proof fn lemma_merge_empty(a: MeshStats)
    ensures
        merged(a, no_stats()) == a,
{
}

} // verus!
