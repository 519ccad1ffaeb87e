use vstd::prelude::*;

use crate::domain::channel::{Channel, ChannelRole};
use std::collections::HashMap;

use crate::domain::ids::{ChannelIndex, NodeId};
use crate::domain::node::Node;
use crate::domain::snapshot::DeviceSnapshot;
use crate::session::{node_id_string, node_id_text};
use crate::ui::nodes::{
    chars_lt, display_name, display_name_text, lemma_chars_lt_total, lemma_chars_lt_transitive,
    names_lt, node_numbers,
};
use crate::domain::message::{DeliveryState, Recipient, TextMessage};
use crate::session::commands::Command;
use crate::text::{decimal, push_decimal, push_str, string_of, trim, trimmed};

verus! {

/// State of the chat tab: the channel slot shown, the text being written,
/// the direct-message target, how many messages of the channel were seen,
/// and whether to keep the view at the newest message.
#[derive(Debug)]
pub struct ChatUi {
    pub active_channel: u8,
    pub composer_text: String,
    pub dm_target: Option<NodeId>,
    pub last_seen_count: usize,
    pub follow_bottom: bool,
}

impl Default for ChatUi {
    fn default() -> (r: Self)
        ensures
            r.active_channel == 0,
            r.composer_text@.len() == 0,
            r.dm_target is None,
            r.last_seen_count == 0,
            !r.follow_bottom,
    {
        ChatUi {
            active_channel: 0,
            composer_text: String::new(),
            dm_target: None,
            last_seen_count: 0,
            follow_bottom: false,
        }
    }
}

/// The tab label of a channel: its name, else "Primary" for the primary
/// slot, "#n" for a secondary one and "#n (off)" for a disabled one.
pub open spec fn channel_label_text(ch: Channel) -> Seq<char> {
    if ch.name@.len() > 0 {
        ch.name@
    } else {
        match ch.role {
            ChannelRole::Primary => "Primary"@,
            ChannelRole::Secondary => "#"@ + decimal(ch.index.value() as nat),
            ChannelRole::Disabled => "#"@ + decimal(ch.index.value() as nat) + " (off)"@,
        }
    }
}

/// The tab label of a channel.
pub fn channel_label(ch: &Channel) -> (r: String)
    ensures
        r@ == channel_label_text(*ch),
{
    if !ch.name.as_str().is_empty() {
        return ch.name.clone();
    }
    match ch.role {
        ChannelRole::Primary => string_of("Primary"),
        ChannelRole::Secondary => {
            let mut s = string_of("#");
            push_decimal(&mut s, ch.index.get() as u64);
            s
        },
        ChannelRole::Disabled => {
            let mut s = string_of("#");
            push_decimal(&mut s, ch.index.get() as u64);
            push_str(&mut s, " (off)");
            s
        },
    }
}

/// The channel shown: the selected slot, or the primary one when the
/// selection is out of range.
pub fn active_channel(chat: &ChatUi) -> (r: ChannelIndex)
    ensures
        r.value() == if chat.active_channel <= 7 {
            chat.active_channel
        } else {
            0
        },
{
    match ChannelIndex::new(chat.active_channel) {
        Some(c) => c,
        None => ChannelIndex::primary(),
    }
}

/// The slots and labels of the channels in `cs` that can be chatted on
/// (all but disabled ones), in list order.
pub open spec fn usable_of(cs: Seq<Channel>) -> Seq<(u8, Seq<char>)>
    decreases cs.len(),
{
    if cs.len() == 0 {
        Seq::empty()
    } else {
        let rest = usable_of(cs.drop_last());
        let c = cs.last();
        if c.role == ChannelRole::Disabled {
            rest
        } else {
            rest.push((c.index.value(), channel_label_text(c)))
        }
    }
}

/// The channels that can be chatted on are exactly the primary and
/// secondary ones: each of them is offered with its slot and label, and
/// every offer is one of them; disabled channels are never offered.
pub proof fn lemma_usable_channels(cs: Seq<Channel>)
    ensures
        forall|i: int|
            0 <= i < cs.len() && (#[trigger] cs[i]).role != ChannelRole::Disabled ==> usable_of(
                cs,
            ).contains((cs[i].index.value(), channel_label_text(cs[i]))),
        forall|k: int|
            0 <= k < usable_of(cs).len() ==> exists|i: int|
                0 <= i < cs.len() && cs[i].role != ChannelRole::Disabled && #[trigger] usable_of(cs)[k]
                    == (cs[i].index.value(), channel_label_text(cs[i])),
    decreases cs.len(),
{
    if cs.len() > 0 {
        let init = cs.drop_last();
        lemma_usable_channels(init);
        let rest = usable_of(init);
        let u = usable_of(cs);
        assert forall|i: int|
            0 <= i < cs.len() && (#[trigger] cs[i]).role != ChannelRole::Disabled implies u.contains(
                (cs[i].index.value(), channel_label_text(cs[i])),
            ) by {
            if i < cs.len() - 1 {
                assert(init[i] == cs[i]);
                let p = (cs[i].index.value(), channel_label_text(cs[i]));
                assert(rest.contains(p));
                let k = choose|k: int| 0 <= k < rest.len() && rest[k] == p;
                assert(u[k] == p);
            } else {
                assert(u[u.len() - 1] == (cs[i].index.value(), channel_label_text(cs[i])));
            }
        }
        assert forall|k: int| 0 <= k < u.len() implies exists|i: int|
            0 <= i < cs.len() && cs[i].role != ChannelRole::Disabled && #[trigger] u[k] == (
            cs[i].index.value(), channel_label_text(cs[i])) by {
            if k < rest.len() {
                assert(u[k] == rest[k]);
                let i = choose|i: int|
                    0 <= i < init.len() && init[i].role != ChannelRole::Disabled && rest[k] == (
                    init[i].index.value(), channel_label_text(init[i]));
                assert(cs[i] == init[i]);
            } else {
                assert(cs[cs.len() - 1] == cs.last());
            }
        }
    }
}

/// The slots and labels of the channels that can be chatted on.
pub fn usable_channels(channels: &Vec<Channel>) -> (r: Vec<(u8, String)>)
    ensures
        r@.map_values(|p: (u8, String)| (p.0, p.1@)) == usable_of(channels@),
{
    let mut out: Vec<(u8, String)> = Vec::new();
    let mut i: usize = 0;
    assert(channels@.take(0) =~= Seq::<Channel>::empty());
    while i < channels.len()
        invariant
            i <= channels@.len(),
            out@.map_values(|p: (u8, String)| (p.0, p.1@)) == usable_of(channels@.take(i as int)),
        decreases channels@.len() - i,
    {
        let c = &channels[i];
        assert(channels@.take(i + 1).drop_last() =~= channels@.take(i as int));
        assert(channels@.take(i + 1).last() == *c);
        match c.role {
            ChannelRole::Disabled => {},
            _ => {
                let ghost before = out@;
                out.push((c.index.get(), channel_label(c)));
                assert(out@.map_values(|p: (u8, String)| (p.0, p.1@)) =~= before.map_values(
                    |p: (u8, String)| (p.0, p.1@),
                ).push((c.index.value(), channel_label_text(*c))));
            },
        }
        i = i + 1;
    }
    assert(channels@.take(channels@.len() as int) =~= channels@);
    out
}

/// The selection after the channel list changed: when some channel is
/// usable and the selected slot is not among them, the first usable one.
pub fn fix_active_channel(chat: &mut ChatUi, usable: &Vec<(u8, String)>)
    ensures
        (usable@.len() > 0 && forall|k: int| 0 <= k < usable@.len() ==> (#[trigger] usable@[k]).0
            != old(chat).active_channel) ==> final(chat).active_channel == usable@[0].0,
        !(usable@.len() > 0 && forall|k: int| 0 <= k < usable@.len() ==> (#[trigger] usable@[k]).0
            != old(chat).active_channel) ==> final(chat).active_channel == old(chat).active_channel,
        final(chat).composer_text == old(chat).composer_text,
        final(chat).dm_target == old(chat).dm_target,
        final(chat).last_seen_count == old(chat).last_seen_count,
        final(chat).follow_bottom == old(chat).follow_bottom,
{
    if usable.len() == 0 {
        return;
    }
    let mut i: usize = 0;
    while i < usable.len()
        invariant
            i <= usable@.len(),
            *chat == *old(chat),
            forall|k: int| 0 <= k < i ==> (#[trigger] usable@[k]).0 != chat.active_channel,
        decreases usable@.len() - i,
    {
        if usable[i].0 == chat.active_channel {
            return;
        }
        i = i + 1;
    }
    chat.active_channel = usable[0].0;
}

/// The messages of `ms` on channel `active`, in list order.
pub open spec fn on_channel(ms: Seq<TextMessage>, active: ChannelIndex) -> Seq<TextMessage>
    decreases ms.len(),
{
    if ms.len() == 0 {
        Seq::empty()
    } else if ms.last().channel == active {
        on_channel(ms.drop_last(), active).push(ms.last())
    } else {
        on_channel(ms.drop_last(), active)
    }
}

/// The messages of channel `active`, in list order.
pub fn channel_messages(messages: &Vec<TextMessage>, active: ChannelIndex) -> (r: Vec<TextMessage>)
    ensures
        r@ == on_channel(messages@, active),
{
    let mut out: Vec<TextMessage> = Vec::new();
    let mut i: usize = 0;
    assert(messages@.take(0) =~= Seq::<TextMessage>::empty());
    while i < messages.len()
        invariant
            i <= messages@.len(),
            out@ == on_channel(messages@.take(i as int), active),
        decreases messages@.len() - i,
    {
        let m = &messages[i];
        assert(messages@.take(i + 1).drop_last() =~= messages@.take(i as int));
        assert(messages@.take(i + 1).last() == *m);
        if m.channel.get() == active.get() {
            proof {
                ChannelIndex::lemma_same_value(m.channel, active);
            }
            out.push(m.clone());
        }
        i = i + 1;
    }
    assert(messages@.take(messages@.len() as int) =~= messages@);
    out
}

/// Notes how many messages the channel now shows: more than last seen
/// means the view follows the newest one.
pub fn note_message_count(chat: &mut ChatUi, count: usize)
    ensures
        final(chat).last_seen_count == count,
        final(chat).follow_bottom == (old(chat).follow_bottom || count > old(chat).last_seen_count),
        final(chat).active_channel == old(chat).active_channel,
        final(chat).composer_text == old(chat).composer_text,
        final(chat).dm_target == old(chat).dm_target,
{
    let new_messages = count > chat.last_seen_count;
    chat.last_seen_count = count;
    if new_messages {
        chat.follow_bottom = true;
    }
}

/// Sends what was written, when it is more than white space: the text
/// (untrimmed) goes to the direct-message target or the channel `active`,
/// asking for an acknowledgement, and the composer is emptied.
pub fn compose_send(chat: &mut ChatUi, active: ChannelIndex) -> (r: Option<Command>)
    ensures
        trimmed(old(chat).composer_text@).len() == 0 ==> r is None && *final(chat) == *old(chat),
        trimmed(old(chat).composer_text@).len() > 0 ==> {
            &&& r == Some(
                Command::SendText {
                    channel: active,
                    to: match old(chat).dm_target {
                        Some(id) => Recipient::Node(id),
                        None => Recipient::Broadcast,
                    },
                    text: old(chat).composer_text,
                    want_ack: true,
                },
            )
            &&& final(chat).composer_text@.len() == 0
            &&& final(chat).active_channel == old(chat).active_channel
            &&& final(chat).dm_target == old(chat).dm_target
            &&& final(chat).last_seen_count == old(chat).last_seen_count
            &&& final(chat).follow_bottom == old(chat).follow_bottom
        },
{
    let t = trim(chat.composer_text.as_str());
    if t.as_str().is_empty() {
        return None;
    }
    let mut text = String::new();
    std::mem::swap(&mut text, &mut chat.composer_text);
    let to = match chat.dm_target {
        Some(id) => Recipient::Node(id),
        None => Recipient::Broadcast,
    };
    Some(Command::SendText { channel: active, to, text, want_ack: true })
}

/// How a sent message's delivery is shown.
pub open spec fn delivery_text(s: DeliveryState) -> Seq<char> {
    match s {
        DeliveryState::Queued => "\u{25cb} queued"@,
        DeliveryState::Sent => "\u{25d0} sent"@,
        DeliveryState::Acked => "\u{2713} acked"@,
        DeliveryState::Failed(_) => "\u{2717} failed"@,
    }
}

/// How a sent message's delivery is shown.
pub fn delivery_label(s: &DeliveryState) -> (r: String)
    ensures
        r@ == delivery_text(*s),
{
    match s {
        DeliveryState::Queued => string_of("\u{25cb} queued"),
        DeliveryState::Sent => string_of("\u{25d0} sent"),
        DeliveryState::Acked => string_of("\u{2713} acked"),
        DeliveryState::Failed(_) => string_of("\u{2717} failed"),
    }
}

/// How a node is named in the chat: its display name when the roster has
/// it, else its identity text.
pub open spec fn sender_name_text(nodes: Map<u32, Node>, id: NodeId) -> Seq<char> {
    if nodes.contains_key(id.0) {
        display_name_text(nodes[id.0])
    } else {
        node_id_text(id)
    }
}

/// How a node is named in the chat.
pub fn sender_name(nodes: &HashMap<u32, Node>, id: NodeId) -> (r: String)
    ensures
        r@ == sender_name_text(nodes@, id),
{
    broadcast use vstd::std_specs::hash::group_hash_axioms;

    match nodes.get(&id.0) {
        Some(n) => display_name(n),
        None => node_id_string(id),
    }
}

/// Labels that never step down from one entry to the next.
pub open spec fn labels_ordered(r: Seq<(NodeId, String)>) -> bool {
    forall|i: int, j: int| 0 <= i < j < r.len() ==> !chars_lt((#[trigger] r[j]).1@, (#[trigger] r[i]).1@)
}

/// No node is offered twice.
pub open spec fn targets_distinct(r: Seq<(NodeId, String)>) -> bool {
    forall|i: int, j: int| 0 <= i < j < r.len() ==> (#[trigger] r[i]).0 != (#[trigger] r[j]).0
}

/// Every entry names a roster node other than the radio, with its display name.
pub open spec fn targets_named(nodes: Map<u32, Node>, me: NodeId, r: Seq<(NodeId, String)>) -> bool {
    forall|i: int|
        0 <= i < r.len() ==> nodes.contains_key((#[trigger] r[i]).0.0) && r[i].0 != me && r[i].1@
            == display_name_text(nodes[r[i].0.0])
}

/// The direct-message targets offered by the composer: every node of the
/// roster but the radio itself, each once with its display name, ordered
/// by name.
pub open spec fn dm_options_ok(nodes: Map<u32, Node>, me: NodeId, r: Seq<(NodeId, String)>) -> bool {
    &&& targets_named(nodes, me, r)
    &&& forall|id: u32| nodes.contains_key(id) && id != me.0 ==> exists|i: int| 0 <= i < r.len() && (#[trigger] r[i]).0.0 == id
    &&& targets_distinct(r)
    &&& labels_ordered(r)
}

/// Inserting an entry at the first place whose label is greater keeps the
/// labels ordered, and keeps the targets distinct when the entry is new.
proof fn lemma_insert_target(old: Seq<(NodeId, String)>, p: int, e: (NodeId, String))
    requires
        0 <= p <= old.len(),
        labels_ordered(old),
        targets_distinct(old),
        forall|k: int| 0 <= k < p ==> !chars_lt(e.1@, (#[trigger] old[k]).1@),
        p < old.len() ==> chars_lt(e.1@, old[p].1@),
        forall|k: int| 0 <= k < old.len() ==> (#[trigger] old[k]).0 != e.0,
    ensures
        labels_ordered(old.insert(p, e)),
        targets_distinct(old.insert(p, e)),
{
    let r = old.insert(p, e);
    assert forall|k: int| p <= k < old.len() implies chars_lt(e.1@, (#[trigger] old[k]).1@) by {
        if k > p {
            assert(!chars_lt(old[k].1@, old[p].1@));
            lemma_chars_lt_total(old[p].1@, old[k].1@);
            if old[p].1@ != old[k].1@ {
                lemma_chars_lt_transitive(e.1@, old[p].1@, old[k].1@);
            }
        }
    }
    assert forall|a: int, b: int| 0 <= a < b < r.len() implies !chars_lt((#[trigger] r[b]).1@, (#[trigger] r[a]).1@) by {
        if a < p && b > p {
            assert(r[b] == old[b - 1]);
            if chars_lt(r[b].1@, r[a].1@) {
                lemma_chars_lt_transitive(e.1@, r[b].1@, r[a].1@);
            }
        } else if a == p {
            assert(r[b] == old[b - 1]);
            if chars_lt(r[b].1@, r[a].1@) {
                crate::ui::nodes::lemma_chars_lt_irreflexive(e.1@);
                lemma_chars_lt_transitive(e.1@, r[b].1@, e.1@);
            }
        } else if a > p {
            assert(r[a] == old[a - 1]);
            assert(r[b] == old[b - 1]);
        }
    }
    assert forall|a: int, b: int| 0 <= a < b < r.len() implies (#[trigger] r[a]).0 != (#[trigger] r[b]).0 by {
        if b > p {
            assert(r[b] == old[b - 1]);
        }
        if a > p {
            assert(r[a] == old[a - 1]);
        }
    }
}

/// After an insertion every entry still comes from the ids walked so far.
proof fn lemma_insert_sources(ids: Seq<u32>, i: int, old: Seq<(NodeId, String)>, p: int, e: (NodeId, String), r: Seq<(NodeId, String)>)
    requires
        0 <= p <= old.len(),
        0 <= i < ids.len(),
        e.0.0 == ids[i],
        r == old.insert(p, e),
        forall|k: int| 0 <= k < old.len() ==> exists|j: int| 0 <= j < i && ids[j] == (#[trigger] old[k]).0.0,
    ensures
        forall|k: int| 0 <= k < r.len() ==> exists|j: int| 0 <= j < i + 1 && ids[j] == (#[trigger] r[k]).0.0,
{
    assert forall|k: int| 0 <= k < r.len() implies exists|j: int| 0 <= j < i + 1 && ids[j] == (#[trigger] r[k]).0.0 by {
        if k < p {
            assert(r[k] == old[k]);
            let j = choose|j: int| 0 <= j < i && ids[j] == old[k].0.0;
            assert(ids[j] == r[k].0.0);
        } else if k == p {
            assert(ids[i] == r[k].0.0);
        } else {
            assert(r[k] == old[k - 1]);
            let j = choose|j: int| 0 <= j < i && ids[j] == old[k - 1].0.0;
            assert(ids[j] == r[k].0.0);
        }
    }
}

/// After an insertion every id walked so far, but the radio's, is offered.
proof fn lemma_insert_covers(me: NodeId, ids: Seq<u32>, i: int, old: Seq<(NodeId, String)>, p: int, e: (NodeId, String), r: Seq<(NodeId, String)>)
    requires
        0 <= p <= old.len(),
        0 <= i < ids.len(),
        e.0.0 == ids[i],
        r == old.insert(p, e),
        forall|j: int| 0 <= j < i && ids[j] != me.0 ==> exists|k: int| 0 <= k < old.len() && (#[trigger] old[k]).0.0 == ids[j],
    ensures
        forall|j: int| 0 <= j < i + 1 && ids[j] != me.0 ==> exists|k: int| 0 <= k < r.len() && (#[trigger] r[k]).0.0 == ids[j],
{
    assert forall|j: int| 0 <= j < i + 1 && ids[j] != me.0 implies exists|k: int| 0 <= k < r.len() && (#[trigger] r[k]).0.0 == ids[j] by {
        if j == i {
            assert(r[p].0.0 == ids[j]);
        } else {
            let k = choose|k: int| 0 <= k < old.len() && old[k].0.0 == ids[j];
            if k < p {
                assert(r[k] == old[k]);
            } else {
                assert(r[k + 1] == old[k]);
            }
        }
    }
}

/// After an insertion of a named entry every entry is still named.
proof fn lemma_insert_named(m: Map<u32, Node>, me: NodeId, old: Seq<(NodeId, String)>, p: int, e: (NodeId, String), r: Seq<(NodeId, String)>)
    requires
        0 <= p <= old.len(),
        e.0 != me,
        m.contains_key(e.0.0),
        e.1@ == display_name_text(m[e.0.0]),
        r == old.insert(p, e),
        targets_named(m, me, old),
    ensures
        targets_named(m, me, r),
{
    assert forall|k: int| 0 <= k < r.len() implies m.contains_key((#[trigger] r[k]).0.0) && r[k].0 != me
        && r[k].1@ == display_name_text(m[r[k].0.0]) by {
        if k < p {
            assert(r[k] == old[k]);
        } else if k > p {
            assert(r[k] == old[k - 1]);
        }
    }
}

/// The direct-message targets offered by the composer.
pub fn dm_options(snapshot: &DeviceSnapshot) -> (r: Vec<(NodeId, String)>)
    ensures
        dm_options_ok(snapshot.nodes@, snapshot.my_node, r@),
{
    broadcast use vstd::std_specs::hash::group_hash_axioms;

    let ids = node_numbers(&snapshot.nodes);
    let ghost m = snapshot.nodes@;
    let me = snapshot.my_node;
    let mut out: Vec<(NodeId, String)> = Vec::new();
    let mut i: usize = 0;
    while i < ids.len()
        invariant
            m == snapshot.nodes@,
            me == snapshot.my_node,
            ids@.to_set() == m.dom(),
            ids@.no_duplicates(),
            i <= ids@.len(),
            targets_named(m, me, out@),
            forall|k: int| 0 <= k < out@.len() ==> exists|j: int| 0 <= j < i && ids@[j] == (#[trigger] out@[k]).0.0,
            forall|j: int| 0 <= j < i && ids@[j] != me.0 ==> exists|k: int| 0 <= k < out@.len() && (#[trigger] out@[k]).0.0 == ids@[j],
            targets_distinct(out@),
            labels_ordered(out@),
        decreases ids@.len() - i,
    {
        let id = ids[i];
        proof {
            assert(ids@.to_set().contains(ids@[i as int]));
        }
        if id == me.0 {
            i = i + 1;
            continue;
        }
        let node = snapshot.nodes.get(&id).unwrap();
        let label = display_name(node);
        let mut p: usize = 0;
        while p < out.len() && !names_lt(label.as_str(), out[p].1.as_str())
            invariant
                p <= out@.len(),
                forall|k: int| 0 <= k < p ==> !chars_lt(label@, (#[trigger] out@[k]).1@),
            decreases out@.len() - p,
        {
            p = p + 1;
        }
        let ghost old_out = out@;
        let entry = (NodeId(id), label);
        proof {
            assert forall|k: int| 0 <= k < old_out.len() implies (#[trigger] old_out[k]).0 != entry.0 by {
                let j = choose|j: int| 0 <= j < i && ids@[j] == old_out[k].0.0;
                assert(ids@[j] != ids@[i as int]);
            }
            lemma_insert_target(old_out, p as int, entry);
        }
        out.insert(p, entry);
        proof {
            lemma_insert_sources(ids@, i as int, old_out, p as int, entry, out@);
            lemma_insert_covers(me, ids@, i as int, old_out, p as int, entry, out@);
            lemma_insert_named(m, me, old_out, p as int, entry, out@);
        }
        i = i + 1;
    }
    proof {
        assert forall|id: u32| m.contains_key(id) && id != me.0 implies exists|k: int| 0 <= k < out@.len() && (#[trigger] out@[k]).0.0 == id by {
            assert(ids@.to_set().contains(id));
            let j = choose|j: int| 0 <= j < ids@.len() && ids@[j] == id;
            assert(ids@[j] == id);
        }
    }
    out
}

} // verus!
