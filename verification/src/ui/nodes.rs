use vstd::prelude::*;

use std::collections::{HashMap, HashSet};

use crate::domain::ids::NodeId;
use crate::domain::node::Node;
use crate::domain::snapshot::DeviceSnapshot;
use crate::session::{node_id_string, node_id_text};
use crate::text::{
    contains_seq, contains_str, hex_digits, lowercase, push_hex, push_str, to_lowercase, trim,
    trimmed,
};
use crate::ui::status::{human_short, push_short_duration, short_duration};
use vstd::std_specs::hash::spec_keys_iter;
use vstd::std_specs::iter::IteratorSpec;

verus! {

broadcast use vstd::std_specs::hash::group_hash_axioms;

/// The node numbers of `nodes`, each once, in the map's own order.
pub fn node_numbers(nodes: &HashMap<u32, Node>) -> (r: Vec<u32>)
    ensures
        r@.to_set() == nodes@.dom(),
        r@.no_duplicates(),
        r@.len() == nodes@.dom().len(),
{
    let ghost all = spec_keys_iter(nodes).remaining();
    let mut out: Vec<u32> = Vec::new();
    for k in it: nodes.keys()
        invariant
            it.seq() == all,
            out@ == all.take(it.index() as int).unref(),
    {
        out.push(*k);
        assert(out@ =~= all.take(it.index() + 1).unref());
    }
    assert(out@ =~= all.unref());
    out
}

/// The column the node table is sorted by.
#[derive(Copy, Clone, Debug, PartialEq, Eq, Structural)]
pub enum NodesSort {
    LastHeard,
    LongName,
    ShortName,
    Battery,
    Snr,
    Hops,
}

impl Default for NodesSort {
    fn default() -> (r: Self)
        ensures
            r == NodesSort::LastHeard,
    {
        NodesSort::LastHeard
    }
}

/// The column heading of a sort key.
pub open spec fn sort_label_text(s: NodesSort) -> Seq<char> {
    match s {
        NodesSort::LastHeard => "Heard"@,
        NodesSort::LongName => "Long"@,
        NodesSort::ShortName => "Short"@,
        NodesSort::Battery => "Bat"@,
        NodesSort::Snr => "SNR"@,
        NodesSort::Hops => "Hops"@,
    }
}

impl NodesSort {
    /// The column heading of the sort key.
    pub fn label(self) -> (r: &'static str)
        ensures
            r@ == sort_label_text(self),
    {
        match self {
            NodesSort::LastHeard => "Heard",
            NodesSort::LongName => "Long",
            NodesSort::ShortName => "Short",
            NodesSort::Battery => "Bat",
            NodesSort::Snr => "SNR",
            NodesSort::Hops => "Hops",
        }
    }
}

/// How long a row stays highlighted after its node changed, in milliseconds.
pub const FLASH_DURATION_MS: u64 = 1500;

/// How recently a node must have been heard to count as online, in
/// milliseconds (two hours).
pub const ONLINE_THRESHOLD_MS: u64 = 7_200_000;

/// State of the node table: sort order, search text, which nodes changed
/// when (monotonic milliseconds), which were heard live this session, and
/// when each remembered node was saved (milliseconds since the epoch).
#[derive(Debug)]
pub struct NodesUi {
    pub sort: NodesSort,
    pub ascending: bool,
    pub search: String,
    pub recently_updated: HashMap<u32, u64>,
    pub seen_live: HashSet<u32>,
    pub persisted_saved_at: HashMap<u32, u64>,
}

impl Default for NodesUi {
    fn default() -> (r: Self)
        ensures
            r.sort == NodesSort::LastHeard,
            !r.ascending,
            r.search@.len() == 0,
            r.recently_updated@.is_empty(),
            r.seen_live@.is_empty(),
            r.persisted_saved_at@.is_empty(),
    {
        NodesUi {
            sort: NodesSort::LastHeard,
            ascending: false,
            search: String::new(),
            recently_updated: HashMap::new(),
            seen_live: HashSet::new(),
            persisted_saved_at: HashMap::new(),
        }
    }
}

impl NodesUi {
    /// Records that node `id` changed at `now_ms`, to highlight its row.
    pub fn mark_updated(&mut self, id: NodeId, now_ms: u64)
        ensures
            final(self).recently_updated@ == old(self).recently_updated@.insert(id.0, now_ms),
            final(self).sort == old(self).sort,
            final(self).ascending == old(self).ascending,
            final(self).search == old(self).search,
            final(self).seen_live@ == old(self).seen_live@,
            final(self).persisted_saved_at@ == old(self).persisted_saved_at@,
    {
        let _ = self.recently_updated.insert(id.0, now_ms);
    }

    /// Whether node `id`'s row is still highlighted at `now_ms`.
    pub fn is_flashing(&self, id: NodeId, now_ms: u64) -> (r: bool)
        ensures
            r == (self.recently_updated@.contains_key(id.0) && self.recently_updated@[id.0]
                <= now_ms && now_ms - self.recently_updated@[id.0] < FLASH_DURATION_MS),
    {
        match self.recently_updated.get(&id.0) {
            Some(t) => *t <= now_ms && now_ms - *t < FLASH_DURATION_MS,
            None => false,
        }
    }
}

/// The name a node is shown with: its long name, else its short name, else
/// its identity text.
pub open spec fn display_name_text(n: Node) -> Seq<char> {
    if n.long_name@.len() > 0 {
        n.long_name@
    } else if n.short_name@.len() > 0 {
        n.short_name@
    } else {
        node_id_text(n.id)
    }
}

/// The name a node is shown with.
pub fn display_name(node: &Node) -> (r: String)
    ensures
        r@ == display_name_text(*node),
{
    if !node.long_name.as_str().is_empty() {
        node.long_name.clone()
    } else if !node.short_name.as_str().is_empty() {
        node.short_name.clone()
    } else {
        node_id_string(node.id)
    }
}

/// How long ago a node was last heard, for the table: "—" when never (or
/// when the clock says the future), else the short duration.
pub open spec fn last_heard_text(last_heard_ms: Option<u64>, now_ms: u64) -> Seq<char> {
    match last_heard_ms {
        Some(t) => if t <= now_ms {
            short_duration(((now_ms - t) / 1000) as nat)
        } else {
            "\u{2014}"@
        },
        None => "\u{2014}"@,
    }
}

/// How long ago a node was last heard, for the table.
pub fn format_last_heard(last_heard_ms: Option<u64>, now_ms: u64) -> (r: String)
    ensures
        r@ == last_heard_text(last_heard_ms, now_ms),
{
    match last_heard_ms {
        Some(t) => if t <= now_ms {
            human_short((now_ms - t) / 1000)
        } else {
            String::from_str("\u{2014}")
        },
        None => String::from_str("\u{2014}"),
    }
}

/// How old a remembered node's data is: "—" when it was not loaded from the
/// store, "just now" when saved in the clock's future, else the short
/// duration followed by " ago".
pub open spec fn cached_age_text(saved_at_ms: Option<u64>, now_ms: u64) -> Seq<char> {
    match saved_at_ms {
        Some(t) => if t <= now_ms {
            short_duration(((now_ms - t) / 1000) as nat) + " ago"@
        } else {
            "just now"@
        },
        None => "\u{2014}"@,
    }
}

/// How old a remembered node's data is.
pub fn format_cached_age(saved_at_ms: Option<u64>, now_ms: u64) -> (r: String)
    ensures
        r@ == cached_age_text(saved_at_ms, now_ms),
{
    match saved_at_ms {
        Some(t) => if t <= now_ms {
            let mut s = String::new();
            push_short_duration(&mut s, (now_ms - t) / 1000);
            push_str(&mut s, " ago");
            assert(s@ =~= cached_age_text(saved_at_ms, now_ms));
            s
        } else {
            String::from_str("just now")
        },
        None => String::from_str("\u{2014}"),
    }
}

/// Whether node `n` matches the lower-cased search text `q`: an empty query
/// matches every node; otherwise the query occurs in the lower-cased long or
/// short name, or in the eight hexadecimal digits of its number.
pub open spec fn node_matches_spec(n: Node, q: Seq<char>) -> bool {
    q.len() == 0 || contains_seq(lowercase(n.long_name@), q) || contains_seq(
        lowercase(n.short_name@),
        q,
    ) || contains_seq(hex_digits(n.id.0 as nat, 8), q)
}

/// Whether node `n` matches the lower-cased search text `q`.
pub fn node_matches(n: &Node, q: &str) -> (r: bool)
    ensures
        r == node_matches_spec(*n, q@),
{
    if q.is_empty() {
        return true;
    }
    let long_lc = to_lowercase(n.long_name.as_str());
    if contains_str(long_lc.as_str(), q) {
        return true;
    }
    let short_lc = to_lowercase(n.short_name.as_str());
    if contains_str(short_lc.as_str(), q) {
        return true;
    }
    let mut hex = String::new();
    push_hex(&mut hex, n.id.0 as u64, 8);
    assert(hex@ =~= hex_digits(n.id.0 as nat, 8));
    contains_str(hex.as_str(), q)
}

/// The numbers of the nodes of `snapshot` matching the search text `query`
/// (trimmed and lower-cased first), in the map's order.
pub fn filtered_nodes(snapshot: &DeviceSnapshot, query: &str) -> (r: Vec<u32>)
    ensures
        r@.no_duplicates(),
        forall|id: u32|
            r@.contains(id) <==> (snapshot.nodes@.contains_key(id) && node_matches_spec(
                snapshot.nodes@[id],
                lowercase(trimmed(query@)),
            )),
{
    let trimmed_query = trim(query);
    let q = to_lowercase(trimmed_query.as_str());
    let ids = node_numbers(&snapshot.nodes);
    let mut out: Vec<u32> = Vec::new();
    let mut i: usize = 0;
    while i < ids.len()
        invariant
            i <= ids@.len(),
            ids@.no_duplicates(),
            ids@.to_set() == snapshot.nodes@.dom(),
            q@ == lowercase(trimmed(query@)),
            out@.no_duplicates(),
            forall|id: u32|
                out@.contains(id) <==> (ids@.take(i as int).contains(id) && node_matches_spec(
                    snapshot.nodes@[id],
                    q@,
                )),
        decreases ids@.len() - i,
    {
        let id = ids[i];
        assert(ids@.contains(id));
        assert(snapshot.nodes@.contains_key(id));
        let ghost seen = ids@.take(i as int);
        assert(ids@.take(i + 1) =~= seen.push(id));
        assert(!seen.contains(id)) by {
            if seen.contains(id) {
                let k = choose|k: int| 0 <= k < seen.len() && seen[k] == id;
                assert(ids@[k] == ids@[i as int]);
            }
        }
        let keep = match snapshot.nodes.get(&id) {
            Some(n) => node_matches(n, q.as_str()),
            None => false,
        };
        let ghost before = out@;
        if keep {
            out.push(id);
        }
        proof {
            assert forall|x: u32| out@.contains(x) <==> (ids@.take(i + 1).contains(x)
                && node_matches_spec(snapshot.nodes@[x], q@)) by {
                if ids@.take(i + 1).contains(x) && x != id {
                    let t = ids@.take(i + 1);
                    let k = choose|k: int| 0 <= k < t.len() && t[k] == x;
                    assert(seen.contains(x)) by {
                        assert(seen[k] == x);
                    }
                }
                if seen.contains(x) {
                    let k = choose|k: int| 0 <= k < seen.len() && seen[k] == x;
                    assert(ids@.take(i + 1)[k] == x);
                }
                if keep && x == id {
                    assert(out@[out@.len() - 1] == id);
                    assert(ids@.take(i + 1)[i as int] == id);
                }
                if keep && out@.contains(x) && x != id {
                    let k = choose|k: int| 0 <= k < out@.len() && out@[k] == x;
                    assert(before[k] == x);
                }
                if keep && before.contains(x) {
                    let k = choose|k: int| 0 <= k < before.len() && before[k] == x;
                    assert(out@[k] == x);
                }
            }
            if keep {
                assert(!before.contains(id));
                assert forall|a: int, b: int| 0 <= a < b < out@.len() implies out@[a] != out@[b] by {
                    if b == out@.len() - 1 {
                        assert(before.contains(out@[a]) ==> out@[a] != id);
                        assert(before[a] == out@[a]);
                    }
                }
            }
        }
        i = i + 1;
    }
    proof {
        assert(ids@.take(ids@.len() as int) =~= ids@);
        assert forall|id: u32| ids@.contains(id) <==> snapshot.nodes@.contains_key(id) by {
            assert(ids@.to_set().contains(id) == ids@.contains(id));
        }
    }
    out
}

/// Node tallies for the toolbar: all nodes; those heard live this session
/// split into online (heard within two hours) and idle; and those only
/// remembered from the store.
#[derive(Copy, Clone, Debug)]
pub struct NodeCounts {
    pub total: usize,
    pub online: usize,
    pub idle: usize,
    pub archived: usize,
}

/// Whether node `n` was heard within the online threshold before `now_ms`.
pub open spec fn heard_recently(n: Node, now_ms: u64) -> bool {
    n.last_heard_ms matches Some(t) && t <= now_ms && now_ms - t <= ONLINE_THRESHOLD_MS
}

/// The node numbers among `ids` that `seen` says were heard live and whose
/// freshness is `fresh`.
pub open spec fn live_with(
    nodes: Map<u32, Node>,
    seen: Set<u32>,
    now_ms: u64,
    ids: Set<u32>,
    fresh: bool,
) -> Set<u32> {
    ids.filter(|id: u32| seen.contains(id) && heard_recently(nodes[id], now_ms) == fresh)
}

/// The node numbers among `ids` not heard live this session.
pub open spec fn not_live(seen: Set<u32>, ids: Set<u32>) -> Set<u32> {
    ids.filter(|id: u32| !seen.contains(id))
}

/// Every node is counted once: the online, idle and remembered-only tallies
/// add up to the total.
pub proof fn lemma_counts_partition(nodes: Map<u32, Node>, seen: Set<u32>, now_ms: u64)
    requires
        nodes.dom().finite(),
    ensures
        live_with(nodes, seen, now_ms, nodes.dom(), true).len() + live_with(
            nodes,
            seen,
            now_ms,
            nodes.dom(),
            false,
        ).len() + not_live(seen, nodes.dom()).len() == nodes.dom().len(),
{
    let d = nodes.dom();
    let on = live_with(nodes, seen, now_ms, d, true);
    let idle = live_with(nodes, seen, now_ms, d, false);
    let gone = not_live(seen, d);
    d.lemma_len_filter(|id: u32| seen.contains(id) && heard_recently(nodes[id], now_ms) == true);
    d.lemma_len_filter(|id: u32| seen.contains(id) && heard_recently(nodes[id], now_ms) == false);
    d.lemma_len_filter(|id: u32| !seen.contains(id));
    assert(on.disjoint(idle));
    vstd::set_lib::lemma_set_disjoint_lens(on, idle);
    assert((on + idle).disjoint(gone));
    vstd::set_lib::lemma_set_disjoint_lens(on + idle, gone);
    assert(on + idle + gone =~= d);
}

impl NodeCounts {
    /// Tallies the nodes of `snapshot` at `now_ms` (milliseconds since the
    /// epoch).
    pub fn compute(snapshot: &DeviceSnapshot, nodes_ui: &NodesUi, now_ms: u64) -> (r: Self)
        ensures
            r.total == snapshot.nodes@.dom().len(),
            r.archived == not_live(nodes_ui.seen_live@, snapshot.nodes@.dom()).len(),
            r.online == live_with(
                snapshot.nodes@,
                nodes_ui.seen_live@,
                now_ms,
                snapshot.nodes@.dom(),
                true,
            ).len(),
            r.idle == live_with(
                snapshot.nodes@,
                nodes_ui.seen_live@,
                now_ms,
                snapshot.nodes@.dom(),
                false,
            ).len(),
    {
        broadcast use vstd::seq_lib::seq_to_set_is_finite;

        let ids = node_numbers(&snapshot.nodes);
        let ghost nodes = snapshot.nodes@;
        let ghost seen = nodes_ui.seen_live@;
        let mut online: usize = 0;
        let mut idle: usize = 0;
        let mut archived: usize = 0;
        let mut i: usize = 0;
        assert(ids@.take(0).to_set() =~= Set::<u32>::empty());
        assert(not_live(seen, Set::<u32>::empty()) =~= Set::<u32>::empty());
        assert(live_with(nodes, seen, now_ms, Set::<u32>::empty(), true) =~= Set::<u32>::empty());
        assert(live_with(nodes, seen, now_ms, Set::<u32>::empty(), false) =~= Set::<u32>::empty());
        while i < ids.len()
            invariant
                i <= ids@.len(),
                nodes == snapshot.nodes@,
                seen == nodes_ui.seen_live@,
                ids@.no_duplicates(),
                ids@.to_set() == nodes.dom(),
                ids@.len() == nodes.dom().len(),
                archived == not_live(seen, ids@.take(i as int).to_set()).len(),
                online == live_with(nodes, seen, now_ms, ids@.take(i as int).to_set(), true).len(),
                idle == live_with(nodes, seen, now_ms, ids@.take(i as int).to_set(), false).len(),
                archived + online + idle == i,
            decreases ids@.len() - i,
        {
            let id = ids[i];
            let ghost before = ids@.take(i as int);
            let ghost after = ids@.take(i + 1);
            assert(after =~= before.push(id));
            assert(!before.contains(id)) by {
                if before.contains(id) {
                    let k = choose|k: int| 0 <= k < before.len() && before[k] == id;
                    assert(ids@[k] == ids@[i as int]);
                }
            }
            proof {
                before.lemma_push_to_set_commute(id);
            }
            assert(after.to_set() == before.to_set().insert(id));
            assert(!before.to_set().contains(id));
            if !nodes_ui.seen_live.contains(&id) {
                assert(not_live(seen, after.to_set()) =~= not_live(seen, before.to_set()).insert(id));
                assert(live_with(nodes, seen, now_ms, after.to_set(), true) =~= live_with(
                    nodes,
                    seen,
                    now_ms,
                    before.to_set(),
                    true,
                ));
                assert(live_with(nodes, seen, now_ms, after.to_set(), false) =~= live_with(
                    nodes,
                    seen,
                    now_ms,
                    before.to_set(),
                    false,
                ));
                archived = archived + 1;
            } else {
                let fresh = match snapshot.nodes.get(&id) {
                    Some(n) => match n.last_heard_ms {
                        Some(t) => t <= now_ms && now_ms - t <= ONLINE_THRESHOLD_MS,
                        None => false,
                    },
                    None => false,
                };
                assert(ids@.contains(id));
                assert(nodes.contains_key(id)) by {
                    assert(ids@.to_set().contains(id));
                }
                assert(fresh == heard_recently(nodes[id], now_ms));
                assert(not_live(seen, after.to_set()) =~= not_live(seen, before.to_set()));
                if fresh {
                    assert(live_with(nodes, seen, now_ms, after.to_set(), true) =~= live_with(
                        nodes,
                        seen,
                        now_ms,
                        before.to_set(),
                        true,
                    ).insert(id));
                    assert(live_with(nodes, seen, now_ms, after.to_set(), false) =~= live_with(
                        nodes,
                        seen,
                        now_ms,
                        before.to_set(),
                        false,
                    ));
                    online = online + 1;
                } else {
                    assert(live_with(nodes, seen, now_ms, after.to_set(), false) =~= live_with(
                        nodes,
                        seen,
                        now_ms,
                        before.to_set(),
                        false,
                    ).insert(id));
                    assert(live_with(nodes, seen, now_ms, after.to_set(), true) =~= live_with(
                        nodes,
                        seen,
                        now_ms,
                        before.to_set(),
                        true,
                    ));
                    idle = idle + 1;
                }
            }
            i = i + 1;
        }
        assert(ids@.take(ids@.len() as int) =~= ids@);
        NodeCounts { total: ids.len(), online, idle, archived }
    }
}

// ---------------------------------------------------------------------------
// Table order
// ---------------------------------------------------------------------------

/// `a` comes before `b` in code-point order, character by character, a
/// proper prefix first: the order of `String`'s comparison.
pub open spec fn chars_lt(a: Seq<char>, b: Seq<char>) -> bool
    decreases a.len(),
{
    if a.len() == 0 {
        b.len() > 0
    } else if b.len() == 0 {
        false
    } else if a[0] != b[0] {
        a[0] < b[0]
    } else {
        chars_lt(a.drop_first(), b.drop_first())
    }
}

pub(crate) proof fn lemma_chars_lt_irreflexive(a: Seq<char>)
    ensures
        !chars_lt(a, a),
    decreases a.len(),
{
    if a.len() > 0 {
        lemma_chars_lt_irreflexive(a.drop_first());
    }
}

pub(crate) proof fn lemma_chars_lt_transitive(a: Seq<char>, b: Seq<char>, c: Seq<char>)
    requires
        chars_lt(a, b),
        chars_lt(b, c),
    ensures
        chars_lt(a, c),
    decreases a.len(),
{
    if a.len() > 0 && b.len() > 0 && c.len() > 0 && a[0] == b[0] && b[0] == c[0] {
        lemma_chars_lt_transitive(a.drop_first(), b.drop_first(), c.drop_first());
    }
}

pub(crate) proof fn lemma_chars_lt_total(a: Seq<char>, b: Seq<char>)
    ensures
        a == b || chars_lt(a, b) || chars_lt(b, a),
    decreases a.len(),
{
    if a.len() > 0 && b.len() > 0 {
        if a[0] == b[0] {
            lemma_chars_lt_total(a.drop_first(), b.drop_first());
            if a.drop_first() == b.drop_first() {
                assert(a =~= seq![a[0]] + a.drop_first());
                assert(b =~= seq![b[0]] + b.drop_first());
            }
        }
    } else if a.len() == 0 && b.len() == 0 {
        assert(a =~= b);
    }
}

/// What a node is ordered by in column `by`: a number (an absent value
/// before every present one) or, for the name columns, the name.
pub open spec fn sort_key(by: NodesSort, n: Node) -> (int, Seq<char>) {
    match by {
        NodesSort::LastHeard => (
            match n.last_heard_ms {
                Some(t) => t as int,
                None => -1,
            },
            Seq::empty(),
        ),
        NodesSort::LongName => (0, n.long_name@),
        NodesSort::ShortName => (0, n.short_name@),
        NodesSort::Battery => (
            match n.battery_level {
                Some(b) => b as int,
                None => -1,
            },
            Seq::empty(),
        ),
        NodesSort::Hops => (
            match n.hops_away {
                Some(h) => h as int,
                None => -1,
            },
            Seq::empty(),
        ),
        NodesSort::Snr => (0, Seq::empty()),
    }
}

/// Key `a` comes strictly before key `b`.
pub open spec fn key_lt(a: (int, Seq<char>), b: (int, Seq<char>)) -> bool {
    a.0 < b.0 || (a.0 == b.0 && chars_lt(a.1, b.1))
}

/// The key node `id` of `nodes` has in column `by`.
pub open spec fn key_of(nodes: Map<u32, Node>, by: NodesSort, id: u32) -> (int, Seq<char>) {
    sort_key(by, nodes[id])
}

/// `ids` in non-decreasing order of their keys.
pub open spec fn ordered_by_key(nodes: Map<u32, Node>, by: NodesSort, ids: Seq<u32>) -> bool {
    forall|i: int, j: int|
        0 <= i < j < ids.len() ==> !key_lt(
            key_of(nodes, by, #[trigger] ids[j]),
            key_of(nodes, by, #[trigger] ids[i]),
        )
}

/// The entries of `ids` whose key is `k`, in their order in `ids`.
pub open spec fn with_key(nodes: Map<u32, Node>, by: NodesSort, ids: Seq<u32>, k: (int, Seq<char>)) -> Seq<u32> {
    ids.filter(|id: u32| key_of(nodes, by, id) == k)
}

/// `out` is `ids` stably ordered by key: non-decreasing, and entries with
/// equal keys keep their relative order. (This fixes `out` given `ids`.)
pub open spec fn stably_ordered(nodes: Map<u32, Node>, by: NodesSort, ids: Seq<u32>, out: Seq<u32>) -> bool {
    &&& ordered_by_key(nodes, by, out)
    &&& forall|k: (int, Seq<char>)| #[trigger] with_key(nodes, by, out, k) == with_key(nodes, by, ids, k)
}

proof fn lemma_none_with_key(nodes: Map<u32, Node>, by: NodesSort, ids: Seq<u32>, k: (int, Seq<char>))
    requires
        forall|i: int| 0 <= i < ids.len() ==> key_of(nodes, by, #[trigger] ids[i]) != k,
    ensures
        with_key(nodes, by, ids, k) == Seq::<u32>::empty(),
    decreases ids.len(),
{
    reveal(Seq::filter);
    if ids.len() > 0 {
        lemma_none_with_key(nodes, by, ids.drop_last(), k);
    }
}

proof fn lemma_insert_by_key(nodes: Map<u32, Node>, by: NodesSort, out: Seq<u32>, p: int, x: u32)
    requires
        ordered_by_key(nodes, by, out),
        0 <= p <= out.len(),
        forall|i: int| 0 <= i < p ==> !key_lt(key_of(nodes, by, x), key_of(nodes, by, #[trigger] out[i])),
        forall|i: int| p <= i < out.len() ==> key_lt(key_of(nodes, by, x), key_of(nodes, by, #[trigger] out[i])),
    ensures
        ordered_by_key(nodes, by, out.insert(p, x)),
        forall|k: (int, Seq<char>)|
            #[trigger] with_key(nodes, by, out.insert(p, x), k) == if k == key_of(nodes, by, x) {
                with_key(nodes, by, out, k).push(x)
            } else {
                with_key(nodes, by, out, k)
            },
{
    let r = out.insert(p, x);
    out.insert_ensures(p, x);
    let kx = key_of(nodes, by, x);
    assert forall|i: int, j: int| 0 <= i < j < r.len() implies !key_lt(
        key_of(nodes, by, #[trigger] r[j]),
        key_of(nodes, by, #[trigger] r[i]),
    ) by {
        let ki = key_of(nodes, by, r[i]);
        let kj = key_of(nodes, by, r[j]);
        if i < p && j == p {
        } else if i < p && j > p {
            assert(r[j] == out[j - 1]);
            // out[i] <= x < out[j - 1]
            if key_lt(kj, ki) {
                let ko = key_of(nodes, by, out[j - 1]);
                lemma_key_lt_transitive(kx, ko, ki);
            }
        } else if i == p {
            assert(r[j] == out[j - 1]);
            if key_lt(kj, ki) {
                lemma_key_lt_asym(kx, kj);
            }
        } else if i > p {
            assert(r[i] == out[i - 1]);
            assert(r[j] == out[j - 1]);
        }
    }
    let a = out.subrange(0, p);
    let b = out.subrange(p, out.len() as int);
    assert(out =~= a + b);
    assert forall|k: (int, Seq<char>)| #[trigger] with_key(nodes, by, r, k) == if k == kx {
        with_key(nodes, by, out, k).push(x)
    } else {
        with_key(nodes, by, out, k)
    } by {
        let pred = |id: u32| key_of(nodes, by, id) == k;
        Seq::filter_distributes_over_add(a.push(x), b, pred);
        Seq::filter_distributes_over_add(a, b, pred);
        a.lemma_filter_push(x, pred);
        if k == kx {
            assert forall|i: int| 0 <= i < b.len() implies key_of(nodes, by, #[trigger] b[i]) != k by {
                assert(b[i] == out[p + i]);
                lemma_key_lt_irreflexive(kx);
            }
            lemma_none_with_key(nodes, by, b, k);
            assert(b.filter(pred) =~= Seq::<u32>::empty());
            assert(a.filter(pred) + b.filter(pred) =~= a.filter(pred));
            assert(a.filter(pred).push(x) + b.filter(pred) =~= a.filter(pred).push(x));
        }
    }
}

proof fn lemma_key_lt_irreflexive(a: (int, Seq<char>))
    ensures
        !key_lt(a, a),
{
    lemma_chars_lt_irreflexive(a.1);
}

proof fn lemma_key_lt_transitive(a: (int, Seq<char>), b: (int, Seq<char>), c: (int, Seq<char>))
    requires
        key_lt(a, b),
        key_lt(b, c),
    ensures
        key_lt(a, c),
{
    if a.0 == b.0 && b.0 == c.0 {
        lemma_chars_lt_transitive(a.1, b.1, c.1);
    }
}

proof fn lemma_key_lt_asym(a: (int, Seq<char>), b: (int, Seq<char>))
    requires
        key_lt(a, b),
    ensures
        !key_lt(b, a),
{
    if key_lt(b, a) {
        lemma_key_lt_transitive(a, b, a);
        lemma_key_lt_irreflexive(a);
    }
}

pub(crate) fn names_lt(a: &str, b: &str) -> (r: bool)
    ensures
        r == chars_lt(a@, b@),
{
    let x = crate::text::chars_of(a);
    let y = crate::text::chars_of(b);
    let mut i: usize = 0;
    assert(a@.skip(0) =~= a@);
    assert(b@.skip(0) =~= b@);
    while i < x.len() && i < y.len() && x[i] == y[i]
        invariant
            x@ == a@,
            y@ == b@,
            i <= x@.len(),
            i <= y@.len(),
            chars_lt(a@, b@) == chars_lt(a@.skip(i as int), b@.skip(i as int)),
        decreases x@.len() - i,
    {
        proof {
            let s = a@.skip(i as int);
            let t = b@.skip(i as int);
            assert(s.drop_first() =~= a@.skip(i + 1));
            assert(t.drop_first() =~= b@.skip(i + 1));
        }
        i = i + 1;
    }
    if i == x.len() {
        i < y.len()
    } else if i == y.len() {
        false
    } else {
        x[i] < y[i]
    }
}

fn opt_lt(a: Option<u64>, b: Option<u64>) -> (r: bool)
    ensures
        r == (match a {
            Some(t) => t as int,
            None => -1,
        } < match b {
            Some(t) => t as int,
            None => -1,
        }),
{
    match (a, b) {
        (None, None) => false,
        (None, Some(_)) => true,
        (Some(_), None) => false,
        (Some(x), Some(y)) => x < y,
    }
}

fn opt_byte(v: Option<u8>) -> (r: Option<u64>)
    ensures
        r == match v {
            Some(b) => Some(b as u64),
            None => None::<u64>,
        },
{
    match v {
        Some(b) => Some(b as u64),
        None => None,
    }
}

/// Whether node `a` comes strictly before node `b` in column `by`.
fn node_key_lt(by: NodesSort, a: &Node, b: &Node) -> (r: bool)
    requires
        by != NodesSort::Snr,
    ensures
        r == key_lt(sort_key(by, *a), sort_key(by, *b)),
{
    proof {
        lemma_chars_lt_irreflexive(Seq::<char>::empty());
    }
    match by {
        NodesSort::LastHeard => opt_lt(a.last_heard_ms, b.last_heard_ms),
        NodesSort::LongName => names_lt(a.long_name.as_str(), b.long_name.as_str()),
        NodesSort::ShortName => names_lt(a.short_name.as_str(), b.short_name.as_str()),
        NodesSort::Battery => opt_lt(opt_byte(a.battery_level), opt_byte(b.battery_level)),
        NodesSort::Hops => opt_lt(opt_byte(a.hops_away), opt_byte(b.hops_away)),
        NodesSort::Snr => false,
    }
}

fn stable_order(nodes: &HashMap<u32, Node>, by: NodesSort, ids: &Vec<u32>) -> (r: Vec<u32>)
    requires
        by != NodesSort::Snr,
        forall|i: int| 0 <= i < ids@.len() ==> nodes@.contains_key(#[trigger] ids@[i]),
    ensures
        stably_ordered(nodes@, by, ids@, r@),
        forall|i: int| 0 <= i < r@.len() ==> nodes@.contains_key(#[trigger] r@[i]),
{
    let ghost m = nodes@;
    let mut out: Vec<u32> = Vec::new();
    let mut i: usize = 0;
    while i < ids.len()
        invariant
            by != NodesSort::Snr,
            m == nodes@,
            forall|k: int| 0 <= k < ids@.len() ==> m.contains_key(#[trigger] ids@[k]),
            i <= ids@.len(),
            ordered_by_key(m, by, out@),
            forall|k: int| 0 <= k < out@.len() ==> m.contains_key(#[trigger] out@[k]),
            forall|k: (int, Seq<char>)| #[trigger] with_key(m, by, out@, k) == with_key(m, by, ids@.take(i as int), k),
        decreases ids@.len() - i,
    {
        let x = ids[i];
        assert(m.contains_key(ids@[i as int]));
        let nx = nodes.get(&x).unwrap();
        let mut p: usize = 0;
        while p < out.len() && !node_key_lt(by, nx, nodes.get(&out[p]).unwrap())
            invariant
                by != NodesSort::Snr,
                m == nodes@,
                *nx == m[x],
                p <= out@.len(),
                forall|k: int| 0 <= k < out@.len() ==> m.contains_key(#[trigger] out@[k]),
                forall|k: int| 0 <= k < p ==> !key_lt(key_of(m, by, x), key_of(m, by, #[trigger] out@[k])),
            decreases out@.len() - p,
        {
            assert(m.contains_key(out@[p as int]));
            p = p + 1;
        }
        proof {
            if p < out@.len() {
                assert(m.contains_key(out@[p as int]));
            }
            assert forall|k: int| p <= k < out@.len() implies key_lt(key_of(m, by, x), key_of(m, by, #[trigger] out@[k])) by {
                assert(key_lt(key_of(m, by, x), key_of(m, by, out@[p as int])));
                if k > p {
                    assert(!key_lt(key_of(m, by, out@[k]), key_of(m, by, out@[p as int])));
                    lemma_chars_lt_total(key_of(m, by, out@[p as int]).1, key_of(m, by, out@[k]).1);
                    if key_of(m, by, out@[p as int]) != key_of(m, by, out@[k]) {
                        lemma_key_lt_transitive(key_of(m, by, x), key_of(m, by, out@[p as int]), key_of(m, by, out@[k]));
                    }
                }
            }
            lemma_insert_by_key(m, by, out@, p as int, x);
            assert(ids@.take(i as int + 1) =~= ids@.take(i as int).push(x));
            assert forall|k: (int, Seq<char>)| #[trigger] with_key(m, by, ids@.take(i as int + 1), k) == if k == key_of(m, by, x) {
                with_key(m, by, ids@.take(i as int), k).push(x)
            } else {
                with_key(m, by, ids@.take(i as int), k)
            } by {
                ids@.take(i as int).lemma_filter_push(x, |id: u32| key_of(m, by, id) == k);
            }
        }
        out.insert(p, x);
        i = i + 1;
    }
    assert(ids@.take(ids@.len() as int) =~= ids@);
    out
}

/// The node numbers `ids` in table order for column `by`: stably ordered
/// by the column's value (absent values first), then reversed when the
/// order is descending. Ordering by signal-to-noise ratio compares
/// floating-point numbers and is not done here.
pub fn sort_nodes(nodes: &HashMap<u32, Node>, ids: &Vec<u32>, by: NodesSort, ascending: bool) -> (r: Vec<u32>)
    requires
        by != NodesSort::Snr,
        forall|i: int| 0 <= i < ids@.len() ==> nodes@.contains_key(#[trigger] ids@[i]),
    ensures
        ascending ==> stably_ordered(nodes@, by, ids@, r@),
        !ascending ==> stably_ordered(nodes@, by, ids@, r@.reverse()),
{
    let sorted = stable_order(nodes, by, ids);
    if ascending {
        sorted
    } else {
        let mut out: Vec<u32> = Vec::new();
        let mut i: usize = sorted.len();
        while i > 0
            invariant
                i <= sorted@.len(),
                out@ == sorted@.subrange(i as int, sorted@.len() as int).reverse(),
            decreases i,
        {
            i = i - 1;
            out.push(sorted[i]);
            assert(out@ =~= sorted@.subrange(i as int, sorted@.len() as int).reverse());
        }
        assert(out@.reverse() =~= sorted@);
        out
    }
}

} // verus!
