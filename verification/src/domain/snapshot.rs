use vstd::prelude::*;

use std::collections::HashMap;

use crate::domain::channel::{Channel, ChannelView};
use crate::domain::config::{
    BluetoothSettings, DeviceSettings, DisplaySettings, LoraSettings, NetworkSettings,
    PositionSettings, PowerSettings,
};
use crate::domain::ids::{ChannelIndex, NodeId, PacketId};
use crate::domain::message::{rank_of, DeliveryState, Direction, TextMessage};
use crate::domain::node::Node;
use crate::domain::stats::MeshStats;

verus! {

/// Everything known about the connected radio once its configuration has been
/// read: identity, the node roster (keyed by node number), channels, messages,
/// configuration sections and statistics.
#[derive(Debug)]
pub struct DeviceSnapshot {
    pub my_node: NodeId,
    pub short_name: String,
    pub long_name: String,
    pub firmware_version: String,
    pub nodes: HashMap<u32, Node>,
    pub channels: Vec<Channel>,
    pub messages: Vec<TextMessage>,
    pub lora: Option<LoraSettings>,
    pub device: Option<DeviceSettings>,
    pub position: Option<PositionSettings>,
    pub power: Option<PowerSettings>,
    pub network: Option<NetworkSettings>,
    pub display: Option<DisplaySettings>,
    pub bluetooth: Option<BluetoothSettings>,
    pub stats: MeshStats,
}

// ---------------------------------------------------------------------------
// Channel list
// ---------------------------------------------------------------------------

/// Position of the first channel at or after `from` whose slot is `idx`, or -1.
pub open spec fn first_channel_at(cs: Seq<Channel>, idx: ChannelIndex, from: int) -> int
    decreases cs.len() - from,
{
    if from < 0 || from >= cs.len() {
        -1
    } else if cs[from].index == idx {
        from
    } else {
        first_channel_at(cs, idx, from + 1)
    }
}

/// The channel list after storing `c`: it replaces the first channel in the
/// same slot, or is appended when the slot is new.
pub open spec fn upserted_channels(cs: Seq<Channel>, c: Channel) -> Seq<Channel> {
    let i = first_channel_at(cs, c.index, 0);
    if i < 0 {
        cs.push(c)
    } else {
        cs.update(i, c)
    }
}

/// No two channels share a slot.
pub open spec fn unique_slots(cs: Seq<Channel>) -> bool {
    forall|i: int, j: int|
        0 <= i < cs.len() && 0 <= j < cs.len() && i != j ==> #[trigger] cs[i].index
            != #[trigger] cs[j].index
}

proof fn lemma_first_channel_at(cs: Seq<Channel>, idx: ChannelIndex, from: int)
    requires
        0 <= from,
    ensures
        first_channel_at(cs, idx, from) == -1 || (from <= first_channel_at(cs, idx, from)
            < cs.len() && cs[first_channel_at(cs, idx, from)].index == idx),
        first_channel_at(cs, idx, from) == -1 ==> forall|k: int|
            from <= k < cs.len() ==> #[trigger] cs[k].index != idx,
        forall|k: int|
            from <= k < first_channel_at(cs, idx, from) ==> #[trigger] cs[k].index != idx,
    decreases cs.len() - from,
{
    if from < cs.len() && cs[from].index != idx {
        lemma_first_channel_at(cs, idx, from + 1);
    }
}

/// Stores `channel` in `channels`: replaces the channel in the same slot, or
/// appends it when the slot is new.
pub fn upsert_channel(channels: &mut Vec<Channel>, channel: Channel)
    ensures
        final(channels)@ == upserted_channels(old(channels)@, channel),
{
    let ghost cs = channels@;
    let n = channels.len();
    let mut i: usize = 0;
    while i < n
        invariant
            n == channels@.len(),
            channels@ == cs,
            cs == old(channels)@,
            i <= n,
            first_channel_at(cs, channel.index, 0) == first_channel_at(cs, channel.index, i as int),
        decreases n - i,
    {
        if channels[i].index == channel.index {
            assert(first_channel_at(cs, channel.index, i as int) == i);
            channels.set(i, channel);
            return;
        }
        i = i + 1;
    }
    channels.push(channel);
}

/// Storing a channel keeps slots unique, and the stored channel is in the
/// list afterwards in its slot.
pub proof fn lemma_upsert_keeps_slots_unique(cs: Seq<Channel>, c: Channel)
    requires
        unique_slots(cs),
    ensures
        unique_slots(upserted_channels(cs, c)),
        upserted_channels(cs, c).contains(c),
        upserted_channels(cs, c).len() == cs.len() || upserted_channels(cs, c).len() == cs.len()
            + 1,
{
    lemma_first_channel_at(cs, c.index, 0);
    let r = upserted_channels(cs, c);
    let i = first_channel_at(cs, c.index, 0);
    if i < 0 {
        assert(r[cs.len() as int] == c);
    } else {
        assert(r[i] == c);
    }
}

// ---------------------------------------------------------------------------
// Message list
// ---------------------------------------------------------------------------

/// Two messages are the same message: same sender, packet id and direction.
pub open spec fn same_message(a: TextMessage, b: TextMessage) -> bool {
    a.id == b.id && a.from == b.from && a.direction == b.direction
}

/// Position of the first message at or after `from` that is the same message
/// as `m`, or -1.
pub open spec fn first_same_message_at(ms: Seq<TextMessage>, m: TextMessage, from: int) -> int
    decreases ms.len() - from,
{
    if from < 0 || from >= ms.len() {
        -1
    } else if same_message(ms[from], m) {
        from
    } else {
        first_same_message_at(ms, m, from + 1)
    }
}

/// The message list after recording `m`: a new message is appended; for a
/// message already present only its state may move forward, when `m`'s state
/// is strictly further along.
pub open spec fn upserted_messages(ms: Seq<TextMessage>, m: TextMessage) -> Seq<TextMessage> {
    let i = first_same_message_at(ms, m, 0);
    if i < 0 {
        ms.push(m)
    } else if rank_of(m.state) > rank_of(ms[i].state) {
        ms.update(i, TextMessage { state: m.state, ..ms[i] })
    } else {
        ms
    }
}

/// No message appears twice.
pub open spec fn unique_messages(ms: Seq<TextMessage>) -> bool {
    forall|i: int, j: int|
        0 <= i < ms.len() && 0 <= j < ms.len() && i != j ==> !same_message(
            #[trigger] ms[i],
            #[trigger] ms[j],
        )
}

proof fn lemma_first_same_message_at(ms: Seq<TextMessage>, m: TextMessage, from: int)
    requires
        0 <= from,
    ensures
        first_same_message_at(ms, m, from) == -1 || (from <= first_same_message_at(ms, m, from)
            < ms.len() && same_message(ms[first_same_message_at(ms, m, from)], m)),
        first_same_message_at(ms, m, from) == -1 ==> forall|k: int|
            from <= k < ms.len() ==> !same_message(#[trigger] ms[k], m),
    decreases ms.len() - from,
{
    if from < ms.len() && !same_message(ms[from], m) {
        lemma_first_same_message_at(ms, m, from + 1);
    }
}

impl DeviceSnapshot {
    /// Stores `channel`: replaces the channel in the same slot, or appends it.
    pub fn upsert_channel(&mut self, channel: Channel)
        ensures
            final(self).channels@ == upserted_channels(old(self).channels@, channel),
            *final(self) == (DeviceSnapshot { channels: final(self).channels, ..*old(self) }),
    {
        upsert_channel(&mut self.channels, channel);
    }

    /// Records a message, deduplicating on (sender, packet id, direction). A
    /// duplicate keeps the stored entry but takes the new delivery state when
    /// that is strictly further along (Queued < Sent < Acked/Failed).
    pub fn upsert_message(&mut self, msg: TextMessage)
        ensures
            final(self).messages@ == upserted_messages(old(self).messages@, msg),
            *final(self) == (DeviceSnapshot { messages: final(self).messages, ..*old(self) }),
    {
        let ghost ms = self.messages@;
        let n = self.messages.len();
        let mut i: usize = 0;
        while i < n
            invariant
                n == self.messages@.len(),
                self.messages@ == ms,
                *self == *old(self),
                ms == old(self).messages@,
                i <= n,
                first_same_message_at(ms, msg, 0) == first_same_message_at(ms, msg, i as int),
            decreases n - i,
        {
            let m = &self.messages[i];
            if m.id == msg.id && m.from == msg.from && m.direction == msg.direction {
                assert(first_same_message_at(ms, msg, i as int) == i);
                if msg.state.rank() > m.state.rank() {
                    let mut updated = m.clone();
                    updated.state = msg.state;
                    self.messages.set(i, updated);
                }
                return;
            }
            i = i + 1;
        }
        self.messages.push(msg);
    }
}

/// Recording a message never duplicates it, never moves a delivery state
/// backwards, and adds at most one entry.
pub proof fn lemma_upsert_message_laws(ms: Seq<TextMessage>, m: TextMessage)
    requires
        unique_messages(ms),
    ensures
        unique_messages(upserted_messages(ms, m)),
        upserted_messages(ms, m).len() <= ms.len() + 1,
        forall|k: int|
            0 <= k < ms.len() ==> rank_of(#[trigger] upserted_messages(ms, m)[k].state) >= rank_of(
                ms[k].state,
            ),
        exists|k: int|
            0 <= k < upserted_messages(ms, m).len() && same_message(
                #[trigger] upserted_messages(ms, m)[k],
                m,
            ) && rank_of(upserted_messages(ms, m)[k].state) >= rank_of(m.state),
{
    lemma_first_same_message_at(ms, m, 0);
    let r = upserted_messages(ms, m);
    let i = first_same_message_at(ms, m, 0);
    if i < 0 {
        assert(r[ms.len() as int] == m);
        assert forall|a: int, b: int|
            0 <= a < r.len() && 0 <= b < r.len() && a != b implies !same_message(
                #[trigger] r[a],
                #[trigger] r[b],
            ) by {
            if a == ms.len() {
                assert(!same_message(ms[b], m));
            } else if b == ms.len() {
                assert(!same_message(ms[a], m));
            }
        }
    } else {
        assert(same_message(r[i], m));
        assert forall|a: int, b: int|
            0 <= a < r.len() && 0 <= b < r.len() && a != b implies !same_message(
                #[trigger] r[a],
                #[trigger] r[b],
            ) by {
            assert(same_message(r[a], ms[a]));
            assert(same_message(r[b], ms[b]));
        }
    }
}

impl Default for DeviceSnapshot {
    fn default() -> (r: Self)
        ensures
            r.my_node == NodeId(0),
            r.short_name@.len() == 0 && r.long_name@.len() == 0 && r.firmware_version@.len() == 0,
            r.nodes@ == Map::<u32, Node>::empty(),
            r.channels@.len() == 0 && r.messages@.len() == 0,
            r.lora is None && r.device is None && r.position is None && r.power is None,
            r.network is None && r.display is None && r.bluetooth is None,
    {
        DeviceSnapshot {
            my_node: NodeId(0),
            short_name: String::new(),
            long_name: String::new(),
            firmware_version: String::new(),
            nodes: HashMap::new(),
            channels: Vec::new(),
            messages: Vec::new(),
            lora: None,
            device: None,
            position: None,
            power: None,
            network: None,
            display: None,
            bluetooth: None,
            stats: MeshStats::default(),
        }
    }
}

// ---------------------------------------------------------------------------
// Ordering messages by time
// ---------------------------------------------------------------------------

/// Messages ordered by the time they were received, earliest first.
pub open spec fn sorted_by_time(ms: Seq<TextMessage>) -> bool {
    forall|i: int, j: int|
        0 <= i < j < ms.len() ==> #[trigger] ms[i].received_at_ms <= #[trigger] ms[j].received_at_ms
}

/// The messages of `ms` received at time `t`, in their order in `ms`.
pub open spec fn received_at(ms: Seq<TextMessage>, t: u64) -> Seq<TextMessage> {
    ms.filter(|m: TextMessage| m.received_at_ms == t)
}

/// `out` is `ms` stably ordered by time: earliest first, and messages
/// received at the same time keep their relative order. (This fixes `out`
/// given `ms`.)
pub open spec fn stably_sorted_by_time(ms: Seq<TextMessage>, out: Seq<TextMessage>) -> bool {
    &&& sorted_by_time(out)
    &&& forall|t: u64| #[trigger] received_at(out, t) == received_at(ms, t)
}

proof fn lemma_none_at_time(ms: Seq<TextMessage>, t: u64)
    requires
        forall|i: int| 0 <= i < ms.len() ==> #[trigger] ms[i].received_at_ms != t,
    ensures
        received_at(ms, t) == Seq::<TextMessage>::empty(),
    decreases ms.len(),
{
    reveal(Seq::filter);
    if ms.len() > 0 {
        lemma_none_at_time(ms.drop_last(), t);
    }
}

/// Inserting `x` at `p`, where every earlier message is not later than `x`
/// and every later one is later, keeps the order and adds `x` after the
/// messages of its own time.
proof fn lemma_insert_at_time(out: Seq<TextMessage>, p: int, x: TextMessage)
    requires
        sorted_by_time(out),
        0 <= p <= out.len(),
        forall|i: int| 0 <= i < p ==> #[trigger] out[i].received_at_ms <= x.received_at_ms,
        forall|i: int| p <= i < out.len() ==> #[trigger] out[i].received_at_ms > x.received_at_ms,
    ensures
        sorted_by_time(out.insert(p, x)),
        forall|t: u64|
            #[trigger] received_at(out.insert(p, x), t) == if t == x.received_at_ms {
                received_at(out, t).push(x)
            } else {
                received_at(out, t)
            },
{
    let r = out.insert(p, x);
    out.insert_ensures(p, x);
    assert forall|i: int, j: int| 0 <= i < j < r.len() implies #[trigger] r[i].received_at_ms
        <= #[trigger] r[j].received_at_ms by {
        if i < p && j < p {
        } else if i < p && j == p {
        } else if i < p {
            assert(r[j] == out[j - 1]);
        } else if i == p {
            assert(r[j] == out[j - 1]);
        } else {
            assert(r[i] == out[i - 1]);
            assert(r[j] == out[j - 1]);
        }
    }
    let a = out.subrange(0, p);
    let b = out.subrange(p, out.len() as int);
    assert(out =~= a + b);
    assert forall|t: u64| #[trigger] received_at(r, t) == if t == x.received_at_ms {
        received_at(out, t).push(x)
    } else {
        received_at(out, t)
    } by {
        let pred = |m: TextMessage| m.received_at_ms == t;
        Seq::filter_distributes_over_add(a.push(x), b, pred);
        Seq::filter_distributes_over_add(a, b, pred);
        a.lemma_filter_push(x, pred);
        if t == x.received_at_ms {
            assert forall|i: int| 0 <= i < b.len() implies #[trigger] b[i].received_at_ms != t by {
                assert(b[i] == out[p + i]);
            }
            lemma_none_at_time(b, t);
            assert(b.filter(pred) =~= Seq::<TextMessage>::empty());
            assert(a.filter(pred) + b.filter(pred) =~= a.filter(pred));
            assert(a.filter(pred).push(x) + b.filter(pred) =~= a.filter(pred).push(x));
        }
    }
}

/// `ms` stably ordered by the time each message was received.
pub fn sort_by_time(ms: &Vec<TextMessage>) -> (r: Vec<TextMessage>)
    ensures
        stably_sorted_by_time(ms@, r@),
{
    let mut out: Vec<TextMessage> = Vec::new();
    let mut i: usize = 0;
    while i < ms.len()
        invariant
            i <= ms.len(),
            sorted_by_time(out@),
            forall|t: u64| #[trigger] received_at(out@, t) == received_at(ms@.take(i as int), t),
        decreases ms.len() - i,
    {
        let x = ms[i].clone();
        let mut p: usize = 0;
        while p < out.len() && out[p].received_at_ms <= x.received_at_ms
            invariant
                p <= out.len(),
                forall|k: int| 0 <= k < p ==> #[trigger] out@[k].received_at_ms <= x.received_at_ms,
            decreases out.len() - p,
        {
            p = p + 1;
        }
        proof {
            assert forall|k: int| p <= k < out@.len() implies #[trigger] out@[k].received_at_ms
                > x.received_at_ms by {
                assert(out@[p as int].received_at_ms > x.received_at_ms);
                if k > p {
                    assert(out@[p as int].received_at_ms <= out@[k].received_at_ms);
                }
            }
            lemma_insert_at_time(out@, p as int, x);
            assert(ms@.take(i as int + 1) =~= ms@.take(i as int).push(x));
            assert forall|t: u64| #[trigger] received_at(ms@.take(i as int + 1), t) == if t
                == x.received_at_ms {
                received_at(ms@.take(i as int), t).push(x)
            } else {
                received_at(ms@.take(i as int), t)
            } by {
                ms@.take(i as int).lemma_filter_push(x, |m: TextMessage| m.received_at_ms == t);
            }
        }
        out.insert(p, x);
        i = i + 1;
    }
    assert(ms@.take(ms@.len() as int) =~= ms@);
    out
}

impl DeviceSnapshot {
    /// Orders the messages by the time they were received, keeping the
    /// order of messages received at the same time.
    pub fn sort_messages_by_time(&mut self)
        ensures
            stably_sorted_by_time(old(self).messages@, final(self).messages@),
            *final(self) == (DeviceSnapshot { messages: final(self).messages, ..*old(self) }),
    {
        let sorted = sort_by_time(&self.messages);
        self.messages = sorted;
    }
}

} // verus!
