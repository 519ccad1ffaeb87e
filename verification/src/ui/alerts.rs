use vstd::prelude::*;

use std::collections::HashMap;

use crate::domain::ids::NodeId;
use crate::domain::message::{Direction, Recipient, TextMessage};
use crate::domain::node::Node;
use crate::text::{
    contains_seq, contains_str, decimal, lowercase, push_decimal, push_str, string_of,
    to_lowercase, trim, trimmed,
};
use crate::ui::nodes::{display_name, display_name_text};

verus! {

broadcast use vstd::std_specs::hash::group_hash_axioms;

/// What the user wants to be alerted about.
#[derive(Debug)]
pub struct AlertConfig {
    /// Master switch: when off, nothing fires.
    pub enabled: bool,
    /// Alert on every incoming direct message.
    pub notify_on_dm: bool,
    /// Case-insensitive words; one found in a message's text or its sender's
    /// name fires an alert.
    pub keywords: Vec<String>,
    /// Per-node battery thresholds.
    pub battery_rules: Vec<BatteryRule>,
}

impl Default for AlertConfig {
    fn default() -> (r: Self)
        ensures
            r.enabled,
            r.notify_on_dm,
            r.keywords@.len() == 0,
            r.battery_rules@.len() == 0,
    {
        AlertConfig {
            enabled: true,
            notify_on_dm: true,
            keywords: Vec::new(),
            battery_rules: Vec::new(),
        }
    }
}

/// Alert when node `node`'s battery drops below `threshold_percent`.
#[derive(Copy, Clone, Debug, PartialEq, Eq, Structural)]
pub struct BatteryRule {
    pub node: NodeId,
    pub threshold_percent: u8,
}

/// What the alert rules remember between events: the last battery level
/// seen per node number.
#[derive(Debug)]
pub struct AlertRuntime {
    pub last_battery: HashMap<u32, u8>,
}

impl Default for AlertRuntime {
    fn default() -> (r: Self)
        ensures
            r.last_battery@.is_empty(),
    {
        AlertRuntime { last_battery: HashMap::new() }
    }
}

/// A notification to show.
#[derive(Debug)]
pub struct AlertEvent {
    pub title: String,
    pub body: String,
}

/// Whether the keyword `kw` (trimmed, lower-cased, not empty) occurs in the
/// lower-cased text or sender name.
pub open spec fn keyword_hits(kw: Seq<char>, text_lc: Seq<char>, name_lc: Seq<char>) -> bool {
    let needle = lowercase(trimmed(kw));
    needle.len() > 0 && (contains_seq(text_lc, needle) || contains_seq(name_lc, needle))
}

/// Position of the first keyword at or after `from` that hits, or -1.
pub open spec fn first_hit(kws: Seq<Seq<char>>, text_lc: Seq<char>, name_lc: Seq<char>, from: int) -> int
    decreases kws.len() - from,
{
    if from < 0 || from >= kws.len() {
        -1
    } else if keyword_hits(kws[from], text_lc, name_lc) {
        from
    } else {
        first_hit(kws, text_lc, name_lc, from + 1)
    }
}

proof fn lemma_first_hit_range(kws: Seq<Seq<char>>, t: Seq<char>, n: Seq<char>, from: int)
    requires
        0 <= from,
    ensures
        first_hit(kws, t, n, from) == -1 || (from <= first_hit(kws, t, n, from) < kws.len()),
    decreases kws.len() - from,
{
    if from < kws.len() && !keyword_hits(kws[from], t, n) {
        lemma_first_hit_range(kws, t, n, from + 1);
    }
}

/// The texts of the keywords.
pub open spec fn keyword_texts(kws: Seq<String>) -> Seq<Seq<char>> {
    kws.map_values(|k: String| k@)
}

/// `r` is what an incoming message fires: nothing when alerts are off or the
/// message is outgoing; otherwise a direct-message alert (when wanted and the
/// message is addressed to `my_node`) followed by an alert for the first
/// keyword that hits, if any.
pub open spec fn message_alerts_ok(
    cfg: AlertConfig,
    my_node: NodeId,
    msg: TextMessage,
    sender: Seq<char>,
    r: Seq<AlertEvent>,
) -> bool {
    if !cfg.enabled || msg.direction != Direction::Incoming {
        r.len() == 0
    } else {
        let dm = msg.to == Recipient::Node(my_node) && cfg.notify_on_dm;
        let kws = keyword_texts(cfg.keywords@);
        let hit = first_hit(kws, lowercase(msg.text@), lowercase(sender), 0);
        &&& r.len() == (if dm { 1int } else { 0 }) + (if hit >= 0 { 1int } else { 0 })
        &&& dm ==> r[0].title@ == "DM from "@ + sender && r[0].body@ == msg.text@
        &&& hit >= 0 ==> r[r.len() - 1].title@ == "Keyword: "@ + kws[hit] && r[r.len()
            - 1].body@ == sender + ": "@ + msg.text@
    }
}

/// The alerts an incoming text message fires; `sender_name` is how its
/// sender is shown.
pub fn on_message(cfg: &AlertConfig, my_node: NodeId, msg: &TextMessage, sender_name: &str) -> (r: Vec<AlertEvent>)
    ensures
        message_alerts_ok(*cfg, my_node, *msg, sender_name@, r@),
{
    let mut out: Vec<AlertEvent> = Vec::new();
    if !cfg.enabled {
        return out;
    }
    match msg.direction {
        Direction::Outgoing => {
            return out;
        },
        Direction::Incoming => {},
    }
    let is_dm = match msg.to {
        Recipient::Node(id) => id.0 == my_node.0,
        Recipient::Broadcast => false,
    };
    if is_dm && cfg.notify_on_dm {
        let mut title = string_of("DM from ");
        push_str(&mut title, sender_name);
        out.push(AlertEvent { title, body: msg.text.clone() });
    }
    let ghost dm_count: int = out@.len() as int;
    let ghost kws = keyword_texts(cfg.keywords@);
    let text_lc = to_lowercase(msg.text.as_str());
    let name_lc = to_lowercase(sender_name);
    let mut i: usize = 0;
    proof {
        lemma_first_hit_range(kws, text_lc@, name_lc@, 0);
    }
    while i < cfg.keywords.len()
        invariant
            i <= cfg.keywords@.len(),
            cfg.enabled,
            msg.direction == Direction::Incoming,
            kws == keyword_texts(cfg.keywords@),
            kws.len() == cfg.keywords@.len(),
            text_lc@ == lowercase(msg.text@),
            name_lc@ == lowercase(sender_name@),
            out@.len() == dm_count,
            first_hit(kws, text_lc@, name_lc@, 0) == first_hit(kws, text_lc@, name_lc@, i as int),
            dm_count == (if msg.to == Recipient::Node(my_node) && cfg.notify_on_dm { 1int } else { 0 }),
            dm_count == 1 ==> out@[0].title@ == "DM from "@ + sender_name@ && out@[0].body@
                == msg.text@,
        decreases cfg.keywords@.len() - i,
    {
        let kw = &cfg.keywords[i];
        assert(kws[i as int] == kw@);
        let trimmed_kw = trim(kw.as_str());
        let needle = to_lowercase(trimmed_kw.as_str());
        if !needle.as_str().is_empty() && (contains_str(text_lc.as_str(), needle.as_str())
            || contains_str(name_lc.as_str(), needle.as_str())) {
            assert(keyword_hits(kws[i as int], text_lc@, name_lc@));
            let mut title = string_of("Keyword: ");
            push_str(&mut title, kw.as_str());
            let mut body = string_of(sender_name);
            push_str(&mut body, ": ");
            push_str(&mut body, msg.text.as_str());
            let ghost before = out@;
            out.push(AlertEvent { title, body });
            assert(first_hit(kws, text_lc@, name_lc@, i as int) == i);
            assert(dm_count == 1 ==> out@[0] == before[0]);
            return out;
        }
        i = i + 1;
    }
    out
}

/// Whether a rule with threshold `thr` fires when the level goes from
/// `prev` (the last level seen, if any) to `level`: it must have been at or
/// above the threshold (or unknown) and now be below it.
pub open spec fn crosses(prev: Option<u8>, level: u8, thr: u8) -> bool {
    (match prev {
        Some(p) => p >= thr,
        None => true,
    }) && level < thr
}

/// The thresholds of the rules in `rules` about node `id` that fire, in
/// order.
pub open spec fn firing_thresholds(rules: Seq<BatteryRule>, id: NodeId, prev: Option<u8>, level: u8) -> Seq<u8>
    decreases rules.len(),
{
    if rules.len() == 0 {
        Seq::empty()
    } else {
        let rest = firing_thresholds(rules.drop_last(), id, prev, level);
        let r = rules.last();
        if r.node == id && crosses(prev, level, r.threshold_percent) {
            rest.push(r.threshold_percent)
        } else {
            rest
        }
    }
}

/// `e` is the alert for node `n` dropping below `thr` at level `level`.
pub open spec fn battery_event_ok(e: AlertEvent, n: Node, thr: u8, level: u8) -> bool {
    &&& e.title@ == display_name_text(n) + ": battery below "@ + decimal(thr as nat) + "%"@
    &&& e.body@ == "Current: "@ + decimal(level as nat) + "%"@
}

/// The alerts a node update fires. With alerts on and a battery reading, the
/// reading is remembered and every rule for this node whose threshold the
/// level just crossed fires, in rule order; otherwise nothing changes.
pub fn on_node(cfg: &AlertConfig, runtime: &mut AlertRuntime, node: &Node) -> (r: Vec<AlertEvent>)
    ensures
        !cfg.enabled || node.battery_level is None ==> r@.len() == 0
            && final(runtime).last_battery@ == old(runtime).last_battery@,
        cfg.enabled && node.battery_level is Some ==> {
            let level = node.battery_level->0;
            let prev = if old(runtime).last_battery@.contains_key(node.id.0) {
                Some(old(runtime).last_battery@[node.id.0])
            } else {
                None
            };
            let fired = firing_thresholds(cfg.battery_rules@, node.id, prev, level);
            &&& final(runtime).last_battery@ == old(runtime).last_battery@.insert(node.id.0, level)
            &&& r@.len() == fired.len()
            &&& forall|i: int| 0 <= i < fired.len() ==> battery_event_ok(#[trigger] r@[i], *node, fired[i], level)
        },
{
    let mut out: Vec<AlertEvent> = Vec::new();
    if !cfg.enabled {
        return out;
    }
    let level = match node.battery_level {
        Some(l) => l,
        None => {
            return out;
        },
    };
    let previous = runtime.last_battery.insert(node.id.0, level);
    let ghost prev = previous;
    let mut i: usize = 0;
    assert(cfg.battery_rules@.take(0) =~= Seq::<BatteryRule>::empty());
    while i < cfg.battery_rules.len()
        invariant
            i <= cfg.battery_rules@.len(),
            prev == previous,
            node.battery_level == Some(level),
            out@.len() == firing_thresholds(cfg.battery_rules@.take(i as int), node.id, prev, level).len(),
            forall|k: int|
                0 <= k < out@.len() ==> battery_event_ok(
                    #[trigger] out@[k],
                    *node,
                    firing_thresholds(cfg.battery_rules@.take(i as int), node.id, prev, level)[k],
                    level,
                ),
        decreases cfg.battery_rules@.len() - i,
    {
        let rule = cfg.battery_rules[i];
        let ghost before = firing_thresholds(cfg.battery_rules@.take(i as int), node.id, prev, level);
        assert(cfg.battery_rules@.take(i + 1).drop_last() =~= cfg.battery_rules@.take(i as int));
        assert(cfg.battery_rules@.take(i + 1).last() == rule);
        let was_above = match previous {
            Some(p) => p >= rule.threshold_percent,
            None => true,
        };
        if rule.node.0 == node.id.0 && was_above && level < rule.threshold_percent {
            let mut title = display_name(node);
            push_str(&mut title, ": battery below ");
            push_decimal(&mut title, rule.threshold_percent as u64);
            push_str(&mut title, "%");
            let mut body = string_of("Current: ");
            push_decimal(&mut body, level as u64);
            push_str(&mut body, "%");
            out.push(AlertEvent { title, body });
            assert forall|k: int| 0 <= k < out@.len() implies battery_event_ok(
                #[trigger] out@[k],
                *node,
                before.push(rule.threshold_percent)[k],
                level,
            ) by {
                if k < before.len() {
                    assert(before.push(rule.threshold_percent)[k] == before[k]);
                }
            }
        }
        i = i + 1;
    }
    assert(cfg.battery_rules@.take(cfg.battery_rules@.len() as int) =~= cfg.battery_rules@);
    out
}

/// A battery rule fires once per crossing: right after it fired for a
/// reading, the same reading again fires nothing.
pub proof fn lemma_battery_fires_once(rules: Seq<BatteryRule>, id: NodeId, prev: Option<u8>, level: u8)
    ensures
        firing_thresholds(rules, id, Some(level), level).len() == 0,
    decreases rules.len(),
{
    if rules.len() > 0 {
        lemma_battery_fires_once(rules.drop_last(), id, prev, level);
    }
}

} // verus!
