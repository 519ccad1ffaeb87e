use vstd::prelude::*;

use crate::domain::ids::{ChannelIndex, NodeId, PacketId, BROADCAST_NUM};
use crate::domain::message::{DeliveryState, Direction, Recipient, TextMessage};
use crate::domain::node::{Node, NodeRole, Position};
use crate::persist::error::PersistError;
use crate::session::handshake::{recipient_from, recipient_of};
use crate::text::{decimal, push_decimal, push_str, str_eq, string_of};

verus! {

// ---------------------------------------------------------------------------
// Codes stored in the message table
// ---------------------------------------------------------------------------

/// The number a direction is stored as.
pub open spec fn direction_code(d: Direction) -> u8 {
    match d {
        Direction::Incoming => 0,
        Direction::Outgoing => 1,
    }
}

/// The number a direction is stored as.
pub fn direction_to_code(d: Direction) -> (r: u8)
    ensures
        r == direction_code(d),
{
    match d {
        Direction::Incoming => 0,
        Direction::Outgoing => 1,
    }
}

/// The direction stored as `c`, if `c` is one.
pub open spec fn direction_of_code(c: u8) -> Option<Direction> {
    if c == 0 {
        Some(Direction::Incoming)
    } else if c == 1 {
        Some(Direction::Outgoing)
    } else {
        None
    }
}

/// The direction stored as `c`, if `c` is one.
pub fn code_to_direction(c: u8) -> (r: Option<Direction>)
    ensures
        r == direction_of_code(c),
{
    match c {
        0 => Some(Direction::Incoming),
        1 => Some(Direction::Outgoing),
        _ => None,
    }
}

/// The tag a delivery state is stored under.
pub open spec fn state_tag(s: DeliveryState) -> Seq<char> {
    match s {
        DeliveryState::Queued => "queued"@,
        DeliveryState::Sent => "sent"@,
        DeliveryState::Acked => "acked"@,
        DeliveryState::Failed(_) => "failed"@,
    }
}

/// The tag and argument a delivery state is stored as: a failure keeps its
/// reason as the argument, the other states have none.
pub fn encode_state(state: &DeliveryState) -> (r: (&'static str, Option<String>))
    ensures
        r.0@ == state_tag(*state),
        match state {
            DeliveryState::Failed(why) => r.1 == Some(*why),
            _ => r.1 is None,
        },
{
    match state {
        DeliveryState::Queued => ("queued", None),
        DeliveryState::Sent => ("sent", None),
        DeliveryState::Acked => ("acked", None),
        DeliveryState::Failed(reason) => ("failed", Some(reason.clone())),
    }
}

/// Whether `tag` is one of the four stored state tags.
pub open spec fn known_tag(tag: Seq<char>) -> bool {
    tag == "queued"@ || tag == "sent"@ || tag == "acked"@ || tag == "failed"@
}

/// `s` is the state stored under `tag` with argument `arg` (a known tag); a
/// failure without argument has an empty reason.
pub open spec fn state_decoded(tag: Seq<char>, arg: Option<Seq<char>>, s: DeliveryState) -> bool {
    if tag == "queued"@ {
        s == DeliveryState::Queued
    } else if tag == "sent"@ {
        s == DeliveryState::Sent
    } else if tag == "acked"@ {
        s == DeliveryState::Acked
    } else {
        s matches DeliveryState::Failed(why) && why@ == match arg {
            Some(a) => a,
            None => Seq::<char>::empty(),
        }
    }
}

/// The text an unknown state tag is reported with.
pub open spec fn unknown_state_text(tag: Seq<char>) -> Seq<char> {
    "unknown state '"@ + tag + "'"@
}

/// Reads a stored delivery state.
pub fn decode_state(tag: &str, arg: Option<&str>) -> (r: Result<DeliveryState, PersistError>)
    ensures
        known_tag(tag@) ==> (r matches Ok(s) && state_decoded(
            tag@,
            match arg {
                Some(a) => Some(a@),
                None => None,
            },
            s,
        )),
        !known_tag(tag@) ==> (r matches Err(PersistError::StateDecode(why)) && why@
            == unknown_state_text(tag@)),
{
    if str_eq(tag, "queued") {
        Ok(DeliveryState::Queued)
    } else if str_eq(tag, "sent") {
        Ok(DeliveryState::Sent)
    } else if str_eq(tag, "acked") {
        Ok(DeliveryState::Acked)
    } else if str_eq(tag, "failed") {
        let why = match arg {
            Some(a) => string_of(a),
            None => String::new(),
        };
        Ok(DeliveryState::Failed(why))
    } else {
        let mut why = string_of("unknown state '");
        push_str(&mut why, tag);
        push_str(&mut why, "'");
        Err(PersistError::StateDecode(why))
    }
}

/// A stored state reads back as the state it was stored from.
pub proof fn lemma_state_roundtrip(s: DeliveryState)
    ensures
        known_tag(state_tag(s)),
        state_decoded(
            state_tag(s),
            match s {
                DeliveryState::Failed(why) => Some(why@),
                _ => None,
            },
            s,
        ),
{
    reveal_strlit("queued");
    reveal_strlit("sent");
    reveal_strlit("acked");
    reveal_strlit("failed");
    assert("sent"@[0] != "queued"@[0]);
    assert("acked"@[0] != "queued"@[0] && "acked"@[0] != "sent"@[0]);
    assert("failed"@[0] != "queued"@[0] && "failed"@[0] != "sent"@[0] && "failed"@[0]
        != "acked"@[0]);
}

// ---------------------------------------------------------------------------
// Node roles
// ---------------------------------------------------------------------------

/// The number a node role is stored as (its wire number).
pub open spec fn role_code(r: NodeRole) -> i32 {
    match r {
        NodeRole::Client => 0,
        NodeRole::ClientMute => 1,
        NodeRole::Router => 2,
        NodeRole::RouterClient => 3,
        NodeRole::Repeater => 4,
        NodeRole::Tracker => 5,
        NodeRole::Sensor => 6,
        NodeRole::Tak => 7,
        NodeRole::ClientHidden => 8,
        NodeRole::LostAndFound => 9,
        NodeRole::TakTracker => 10,
        NodeRole::RouterLate => 11,
        NodeRole::ClientBase => 12,
        NodeRole::Unknown(v) => v,
    }
}

/// The number a node role is stored as.
pub fn node_role_to_wire(r: &NodeRole) -> (v: i32)
    ensures
        v == role_code(*r),
{
    match r {
        NodeRole::Client => 0,
        NodeRole::ClientMute => 1,
        NodeRole::Router => 2,
        NodeRole::RouterClient => 3,
        NodeRole::Repeater => 4,
        NodeRole::Tracker => 5,
        NodeRole::Sensor => 6,
        NodeRole::Tak => 7,
        NodeRole::ClientHidden => 8,
        NodeRole::LostAndFound => 9,
        NodeRole::TakTracker => 10,
        NodeRole::RouterLate => 11,
        NodeRole::ClientBase => 12,
        NodeRole::Unknown(v) => *v,
    }
}

/// The node role stored as `v`; numbers without a name are kept as unknown.
pub open spec fn role_of_code(v: i32) -> NodeRole {
    if v == 0 {
        NodeRole::Client
    } else if v == 1 {
        NodeRole::ClientMute
    } else if v == 2 {
        NodeRole::Router
    } else if v == 3 {
        NodeRole::RouterClient
    } else if v == 4 {
        NodeRole::Repeater
    } else if v == 5 {
        NodeRole::Tracker
    } else if v == 6 {
        NodeRole::Sensor
    } else if v == 7 {
        NodeRole::Tak
    } else if v == 8 {
        NodeRole::ClientHidden
    } else if v == 9 {
        NodeRole::LostAndFound
    } else if v == 10 {
        NodeRole::TakTracker
    } else if v == 11 {
        NodeRole::RouterLate
    } else if v == 12 {
        NodeRole::ClientBase
    } else {
        NodeRole::Unknown(v)
    }
}

/// The node role stored as `v`.
pub fn node_role_from_wire(v: i32) -> (r: NodeRole)
    ensures
        r == role_of_code(v),
{
    match v {
        0 => NodeRole::Client,
        1 => NodeRole::ClientMute,
        2 => NodeRole::Router,
        3 => NodeRole::RouterClient,
        4 => NodeRole::Repeater,
        5 => NodeRole::Tracker,
        6 => NodeRole::Sensor,
        7 => NodeRole::Tak,
        8 => NodeRole::ClientHidden,
        9 => NodeRole::LostAndFound,
        10 => NodeRole::TakTracker,
        11 => NodeRole::RouterLate,
        12 => NodeRole::ClientBase,
        v => NodeRole::Unknown(v),
    }
}

/// A role is one the store can tell apart: any named role, or an unknown
/// number that no named role uses.
pub open spec fn storable_role(r: NodeRole) -> bool {
    r matches NodeRole::Unknown(v) ==> !(0 <= v <= 12)
}

/// A stored role reads back as itself (an unknown number that a named role
/// uses reads back as that role).
pub proof fn lemma_role_roundtrip(r: NodeRole)
    requires
        storable_role(r),
    ensures
        role_of_code(role_code(r)) == r,
{
}

// ---------------------------------------------------------------------------
// Message rows
// ---------------------------------------------------------------------------

/// A row of the message table.
#[derive(Debug)]
pub struct StoredMessage {
    pub packet_id: u32,
    pub direction: u8,
    pub from_node: u32,
    pub to_node: u32,
    pub channel: u8,
    pub text: String,
    pub received_ms: i64,
    pub state: String,
    pub state_arg: Option<String>,
}

/// A stored millisecond time as a time since the epoch (0 when negative).
pub open spec fn stored_time(ms: i64) -> u64 {
    if ms >= 0 {
        ms as u64
    } else {
        0
    }
}

/// `r` is what the row `row` reads as: a bad direction code, a channel slot
/// above 7 and an unknown state tag are refused (in that order of checking),
/// with the text naming the culprit; otherwise the message the row holds.
pub open spec fn row_message_ok(row: StoredMessage, r: Result<TextMessage, PersistError>) -> bool {
    match direction_of_code(row.direction) {
        None => r matches Err(PersistError::StateDecode(why)) && why@ == "bad direction "@
            + decimal(row.direction as nat),
        Some(d) => if row.channel > 7 {
            r matches Err(PersistError::StateDecode(why)) && why@ == "bad channel "@ + decimal(
                row.channel as nat,
            )
        } else if !known_tag(row.state@) {
            r matches Err(PersistError::StateDecode(why)) && why@ == unknown_state_text(row.state@)
        } else {
            r matches Ok(m) && m.id == PacketId(row.packet_id) && m.channel.value() == row.channel
                && m.from == NodeId(row.from_node) && m.to == recipient_of(row.to_node) && m.text
                == row.text && m.received_at_ms == stored_time(row.received_ms) && m.direction
                == d && state_decoded(
                row.state@,
                match row.state_arg {
                    Some(a) => Some(a@),
                    None => None,
                },
                m.state,
            )
        },
    }
}

impl StoredMessage {
    /// The message the row holds.
    pub fn into_message(self) -> (r: Result<TextMessage, PersistError>)
        ensures
            row_message_ok(self, r),
    {
        let direction = match code_to_direction(self.direction) {
            Some(d) => d,
            None => {
                let mut why = string_of("bad direction ");
                push_decimal(&mut why, self.direction as u64);
                return Err(PersistError::StateDecode(why));
            },
        };
        let channel = match ChannelIndex::new(self.channel) {
            Some(c) => c,
            None => {
                let mut why = string_of("bad channel ");
                push_decimal(&mut why, self.channel as u64);
                return Err(PersistError::StateDecode(why));
            },
        };
        let to = recipient_from(self.to_node);
        let received_at_ms: u64 = if self.received_ms >= 0 {
            self.received_ms as u64
        } else {
            0
        };
        let state = match &self.state_arg {
            Some(a) => decode_state(self.state.as_str(), Some(a.as_str())),
            None => decode_state(self.state.as_str(), None),
        };
        let state = match state {
            Ok(s) => s,
            Err(e) => {
                return Err(e);
            },
        };
        Ok(
            TextMessage {
                id: PacketId(self.packet_id),
                channel,
                from: NodeId(self.from_node),
                to,
                text: self.text,
                received_at_ms,
                direction,
                state,
            },
        )
    }
}

/// The node number a recipient is stored as.
pub open spec fn stored_recipient(to: Recipient) -> u32 {
    match to {
        Recipient::Broadcast => BROADCAST_NUM,
        Recipient::Node(n) => n.0,
    }
}

/// `row` is the row that stores `m`: times beyond `i64::MAX` are stored as 0.
pub open spec fn message_row_of(m: TextMessage, row: StoredMessage) -> bool {
    &&& row.packet_id == m.id.0
    &&& row.direction == direction_code(m.direction)
    &&& row.from_node == m.from.0
    &&& row.to_node == stored_recipient(m.to)
    &&& row.channel == m.channel.value()
    &&& row.text == m.text
    &&& row.received_ms == if m.received_at_ms <= i64::MAX as u64 {
        m.received_at_ms as i64
    } else {
        0i64
    }
    &&& row.state@ == state_tag(m.state)
    &&& row.state_arg == match m.state {
        DeliveryState::Failed(why) => Some(why),
        _ => None,
    }
}

/// The row that stores the message `msg`.
pub fn stored_message(msg: &TextMessage) -> (r: StoredMessage)
    ensures
        message_row_of(*msg, r),
{
    let (tag, arg) = encode_state(&msg.state);
    StoredMessage {
        packet_id: msg.id.0,
        direction: direction_to_code(msg.direction),
        from_node: msg.from.0,
        to_node: match msg.to {
            Recipient::Broadcast => BROADCAST_NUM,
            Recipient::Node(n) => n.0,
        },
        channel: msg.channel.get(),
        text: msg.text.clone(),
        received_ms: if msg.received_at_ms <= i64::MAX as u64 {
            msg.received_at_ms as i64
        } else {
            0
        },
        state: string_of(tag),
        state_arg: arg,
    }
}

/// A stored message loads back as itself (its failure reason as the same
/// text), provided its time fits the column and it is not addressed to the
/// broadcast number as a single node.
pub proof fn lemma_message_roundtrip(m: TextMessage, row: StoredMessage, r: Result<TextMessage, PersistError>)
    requires
        message_row_of(m, row),
        row_message_ok(row, r),
        m.received_at_ms <= i64::MAX as u64,
        m.to != Recipient::Node(NodeId(BROADCAST_NUM)),
        m.channel.value() <= 7,
    ensures
        r matches Ok(back) && back.id == m.id && back.channel == m.channel && back.from == m.from
            && back.to == m.to && back.text == m.text && back.received_at_ms == m.received_at_ms
            && back.direction == m.direction && match (back.state, m.state) {
            (DeliveryState::Failed(a), DeliveryState::Failed(b)) => a@ == b@,
            (x, y) => x == y,
        },
{
    lemma_state_roundtrip(m.state);
    match r {
        Ok(back) => {
            assert(back.channel.value() == m.channel.value());
            ChannelIndex::lemma_same_value(back.channel, m.channel);
        },
        Err(_) => {},
    }
}

// ---------------------------------------------------------------------------
// Node rows
// ---------------------------------------------------------------------------

/// A row of the node table. Voltage and SNR are 32-bit floating-point
/// numbers kept as their bit patterns; latitude and longitude are in units
/// of 1e-7 degrees; times are milliseconds since the epoch.
#[derive(Debug)]
pub struct StoredNode {
    pub node_id: u32,
    pub long_name: String,
    pub short_name: String,
    pub role: i32,
    pub battery: Option<i64>,
    pub voltage_bits: Option<u32>,
    pub snr_bits: Option<u32>,
    pub rssi: Option<i32>,
    pub hops_away: Option<i64>,
    pub last_heard_ms: Option<i64>,
    pub latitude_i: Option<i32>,
    pub longitude_i: Option<i32>,
    pub altitude: Option<i32>,
    pub saved_at_ms: i64,
    pub is_favorite: bool,
    pub is_ignored: bool,
}

/// A node loaded from the store, with the time it was saved (milliseconds
/// since the epoch).
#[derive(Debug)]
pub struct PersistedNode {
    pub node: Node,
    pub saved_at_ms: u64,
}

/// A stored small count as a byte, when it fits one.
pub open spec fn stored_byte(v: Option<i64>) -> Option<u8> {
    match v {
        Some(x) => if 0 <= x <= 255 {
            Some(x as u8)
        } else {
            None
        },
        None => None,
    }
}

/// A stored optional time: kept when not negative.
pub open spec fn stored_opt_time(v: Option<i64>) -> Option<u64> {
    match v {
        Some(ms) => if ms >= 0 {
            Some(ms as u64)
        } else {
            None
        },
        None => None,
    }
}

/// `p` is what the row `row` loads as: a position only when both latitude
/// and longitude are stored; counts that do not fit a byte and negative
/// times are dropped.
pub open spec fn persisted_of(row: StoredNode, p: PersistedNode) -> bool {
    &&& p.saved_at_ms == stored_time(row.saved_at_ms)
    &&& p.node == Node {
        id: NodeId(row.node_id),
        long_name: row.long_name,
        short_name: row.short_name,
        role: role_of_code(row.role),
        battery_level: stored_byte(row.battery),
        voltage_v_bits: row.voltage_bits,
        snr_db_bits: row.snr_bits,
        rssi_dbm: row.rssi,
        hops_away: stored_byte(row.hops_away),
        last_heard_ms: stored_opt_time(row.last_heard_ms),
        position: match (row.latitude_i, row.longitude_i) {
            (Some(lat), Some(lon)) => Some(
                Position { latitude_i: lat, longitude_i: lon, altitude_m: row.altitude },
            ),
            _ => None,
        },
        is_favorite: row.is_favorite,
        is_ignored: row.is_ignored,
    }
}

fn byte_of(v: Option<i64>) -> (r: Option<u8>)
    ensures
        r == stored_byte(v),
{
    match v {
        Some(x) => if 0 <= x && x <= 255 {
            Some(x as u8)
        } else {
            None
        },
        None => None,
    }
}

impl StoredNode {
    /// The node the row holds.
    pub fn into_persisted(self) -> (r: PersistedNode)
        ensures
            persisted_of(self, r),
    {
        let last_heard_ms: Option<u64> = match self.last_heard_ms {
            Some(ms) => if ms >= 0 {
                Some(ms as u64)
            } else {
                None
            },
            None => None,
        };
        let position = match (self.latitude_i, self.longitude_i) {
            (Some(lat), Some(lon)) => Some(
                Position { latitude_i: lat, longitude_i: lon, altitude_m: self.altitude },
            ),
            _ => None,
        };
        let saved_at_ms: u64 = if self.saved_at_ms >= 0 {
            self.saved_at_ms as u64
        } else {
            0
        };
        let node = Node {
            id: NodeId(self.node_id),
            long_name: self.long_name,
            short_name: self.short_name,
            role: node_role_from_wire(self.role),
            battery_level: byte_of(self.battery),
            voltage_v_bits: self.voltage_bits,
            snr_db_bits: self.snr_bits,
            rssi_dbm: self.rssi,
            hops_away: byte_of(self.hops_away),
            last_heard_ms,
            position,
            is_favorite: self.is_favorite,
            is_ignored: self.is_ignored,
        };
        PersistedNode { node, saved_at_ms }
    }
}

/// A time as stored in a column of `i64` milliseconds: `None` beyond its
/// range.
pub open spec fn time_column(ms: Option<u64>) -> Option<i64> {
    match ms {
        Some(t) => if t <= i64::MAX as u64 {
            Some(t as i64)
        } else {
            None
        },
        None => None,
    }
}

/// `row` is the row that stores node `n` saved at `saved_at_ms` (a time
/// beyond the column's range is stored as 0).
pub open spec fn node_row_of(n: Node, saved_at_ms: u64, row: StoredNode) -> bool {
    &&& row.node_id == n.id.0
    &&& row.long_name == n.long_name
    &&& row.short_name == n.short_name
    &&& row.role == role_code(n.role)
    &&& row.battery == match n.battery_level {
        Some(b) => Some(b as i64),
        None => None,
    }
    &&& row.voltage_bits == n.voltage_v_bits
    &&& row.snr_bits == n.snr_db_bits
    &&& row.rssi == n.rssi_dbm
    &&& row.hops_away == match n.hops_away {
        Some(h) => Some(h as i64),
        None => None,
    }
    &&& row.last_heard_ms == time_column(n.last_heard_ms)
    &&& row.latitude_i == match n.position {
        Some(p) => Some(p.latitude_i),
        None => None,
    }
    &&& row.longitude_i == match n.position {
        Some(p) => Some(p.longitude_i),
        None => None,
    }
    &&& row.altitude == match n.position {
        Some(p) => p.altitude_m,
        None => None,
    }
    &&& row.saved_at_ms == if saved_at_ms <= i64::MAX as u64 {
        saved_at_ms as i64
    } else {
        0i64
    }
    &&& row.is_favorite == n.is_favorite
    &&& row.is_ignored == n.is_ignored
}

/// The row that stores node `node` saved at `saved_at_ms`.
pub fn stored_node(node: &Node, saved_at_ms: u64) -> (r: StoredNode)
    ensures
        node_row_of(*node, saved_at_ms, r),
{
    let last_heard_ms: Option<i64> = match node.last_heard_ms {
        Some(t) => if t <= i64::MAX as u64 {
            Some(t as i64)
        } else {
            None
        },
        None => None,
    };
    let (lat, lon, alt) = match node.position {
        Some(p) => (Some(p.latitude_i), Some(p.longitude_i), p.altitude_m),
        None => (None, None, None),
    };
    StoredNode {
        node_id: node.id.0,
        long_name: node.long_name.clone(),
        short_name: node.short_name.clone(),
        role: node_role_to_wire(&node.role),
        battery: match node.battery_level {
            Some(b) => Some(b as i64),
            None => None,
        },
        voltage_bits: node.voltage_v_bits,
        snr_bits: node.snr_db_bits,
        rssi: node.rssi_dbm,
        hops_away: match node.hops_away {
            Some(h) => Some(h as i64),
            None => None,
        },
        last_heard_ms,
        latitude_i: lat,
        longitude_i: lon,
        altitude: alt,
        saved_at_ms: if saved_at_ms <= i64::MAX as u64 {
            saved_at_ms as i64
        } else {
            0
        },
        is_favorite: node.is_favorite,
        is_ignored: node.is_ignored,
    }
}

/// A stored node loads back as itself, saved at the time it was stored,
/// provided its role can be told apart and its times fit the columns.
pub proof fn lemma_node_roundtrip(n: Node, saved_at_ms: u64, row: StoredNode, p: PersistedNode)
    requires
        node_row_of(n, saved_at_ms, row),
        persisted_of(row, p),
        storable_role(n.role),
        saved_at_ms <= i64::MAX as u64,
        n.last_heard_ms matches Some(t) ==> t <= i64::MAX as u64,
    ensures
        p.node == n,
        p.saved_at_ms == saved_at_ms,
{
    lemma_role_roundtrip(n.role);
}

} // verus!
