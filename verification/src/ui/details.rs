use vstd::prelude::*;

use std::collections::HashMap;

use crate::domain::ids::NodeId;
use crate::domain::node::Node;
use crate::session::commands::Command;
use crate::text::push_str;
use crate::ui::status::{push_short_duration, short_duration};

verus! {

broadcast use vstd::std_specs::hash::group_hash_axioms;

/// `s`, or `fallback` when `s` is empty.
pub fn non_empty_or(s: &str, fallback: &str) -> (r: String)
    ensures
        r@ == if s@.len() == 0 {
            fallback@
        } else {
            s@
        },
{
    if s.is_empty() {
        String::from_str(fallback)
    } else {
        String::from_str(s)
    }
}

/// How long ago a node was last heard, for its detail window: "—" when
/// never (or in the clock's future), else the short duration and " ago".
pub open spec fn heard_ago_text(last_heard_ms: Option<u64>, now_ms: u64) -> Seq<char> {
    match last_heard_ms {
        Some(t) => if t <= now_ms {
            short_duration(((now_ms - t) / 1000) as nat) + " ago"@
        } else {
            "\u{2014}"@
        },
        None => "\u{2014}"@,
    }
}

/// How long ago a node was last heard, for its detail window.
pub fn format_last_heard(last_heard_ms: Option<u64>, now_ms: u64) -> (r: String)
    ensures
        r@ == heard_ago_text(last_heard_ms, now_ms),
{
    match last_heard_ms {
        Some(t) => if t <= now_ms {
            let mut s = String::new();
            push_short_duration(&mut s, (now_ms - t) / 1000);
            push_str(&mut s, " ago");
            assert(s@ =~= heard_ago_text(last_heard_ms, now_ms));
            s
        } else {
            String::from_str("\u{2014}")
        },
        None => String::from_str("\u{2014}"),
    }
}

/// What the user can do from a node's detail window.
#[derive(Copy, Clone, Debug, PartialEq, Eq, Structural)]
pub enum Action {
    ToggleFavorite,
    ToggleIgnored,
    SendMessage,
}

/// Flips the favourite or ignored flag of node `id` in `nodes` and gives the
/// command that tells the radio; a node that is not known, and opening a
/// direct message, change nothing here.
pub fn apply_action(nodes: &mut HashMap<u32, Node>, id: NodeId, action: Action) -> (r: Option<Command>)
    ensures
        match action {
            Action::ToggleFavorite => if old(nodes)@.contains_key(id.0) {
                let n = old(nodes)@[id.0];
                final(nodes)@ == old(nodes)@.insert(id.0, Node { is_favorite: !n.is_favorite, ..n })
                    && r == Some(Command::SetFavorite { node: id, favorite: !n.is_favorite })
            } else {
                final(nodes)@ == old(nodes)@ && r is None
            },
            Action::ToggleIgnored => if old(nodes)@.contains_key(id.0) {
                let n = old(nodes)@[id.0];
                final(nodes)@ == old(nodes)@.insert(id.0, Node { is_ignored: !n.is_ignored, ..n })
                    && r == Some(Command::SetIgnored { node: id, ignored: !n.is_ignored })
            } else {
                final(nodes)@ == old(nodes)@ && r is None
            },
            Action::SendMessage => final(nodes)@ == old(nodes)@ && r is None,
        },
{
    match action {
        Action::SendMessage => None,
        Action::ToggleFavorite => {
            let updated = match nodes.get(&id.0) {
                Some(n) => {
                    let mut m = n.clone();
                    m.is_favorite = !m.is_favorite;
                    m
                },
                None => {
                    return None;
                },
            };
            let favorite = updated.is_favorite;
            let _ = nodes.insert(id.0, updated);
            Some(Command::SetFavorite { node: id, favorite })
        },
        Action::ToggleIgnored => {
            let updated = match nodes.get(&id.0) {
                Some(n) => {
                    let mut m = n.clone();
                    m.is_ignored = !m.is_ignored;
                    m
                },
                None => {
                    return None;
                },
            };
            let ignored = updated.is_ignored;
            let _ = nodes.insert(id.0, updated);
            Some(Command::SetIgnored { node: id, ignored })
        },
    }
}

} // verus!
