use vstd::prelude::*;

use crate::domain::ids::NodeId;
use crate::domain::node::Node;
use crate::domain::snapshot::DeviceSnapshot;
use crate::ui::nodes::node_numbers;
use crate::session::node_id_text;
use crate::session::node_id_string;
use crate::text::push_str;
use crate::ui::status::{push_short_duration, short_duration};

verus! {

broadcast use vstd::std_specs::hash::group_hash_axioms;

/// How the topology tab lays nodes out.
#[derive(Copy, Clone, Debug, PartialEq, Eq, Structural)]
pub enum ViewKind {
    Signal,
    Geographic,
}

impl Default for ViewKind {
    fn default() -> (r: Self)
        ensures
            r == ViewKind::Signal,
    {
        ViewKind::Signal
    }
}

/// How long ago something happened, `secs` seconds back: "just now" under
/// five seconds, else the short duration followed by " ago".
pub open spec fn ago_text(secs: nat) -> Seq<char> {
    if secs < 5 {
        "just now"@
    } else {
        short_duration(secs) + " ago"@
    }
}

/// How long ago something happened, `secs` seconds back.
pub fn human_ago(secs: u64) -> (r: String)
    ensures
        r@ == ago_text(secs as nat),
{
    if secs < 5 {
        return String::from_str("just now");
    }
    let mut s = String::new();
    push_short_duration(&mut s, secs);
    push_str(&mut s, " ago");
    assert(s@ =~= ago_text(secs as nat));
    s
}

/// The label a node gets on the map: its short name, else its long name,
/// else its identity text.
pub open spec fn short_label_text(n: Node) -> Seq<char> {
    if n.short_name@.len() > 0 {
        n.short_name@
    } else if n.long_name@.len() > 0 {
        n.long_name@
    } else {
        node_id_text(n.id)
    }
}

/// The label a node gets on the map.
pub fn short_label(node: &Node) -> (r: String)
    ensures
        r@ == short_label_text(*node),
{
    if !node.short_name.as_str().is_empty() {
        node.short_name.clone()
    } else if !node.long_name.as_str().is_empty() {
        node.long_name.clone()
    } else {
        node_id_string(node.id)
    }
}

/// The ring a node is drawn on by hop count: 0 for direct neighbours, 1 for
/// one hop, 2 for more, 3 when unknown.
pub open spec fn ring_of(hops: Option<u8>) -> nat {
    match hops {
        Some(h) => if h == 0 {
            0
        } else if h == 1 {
            1
        } else {
            2
        },
        None => 3,
    }
}

/// Whether the node numbers `v` are in strictly increasing order.
pub open spec fn strictly_increasing(v: Seq<NodeId>) -> bool {
    forall|i: int, j: int| 0 <= i < j < v.len() ==> (#[trigger] v[i]).0 < (#[trigger] v[j]).0
}

/// The nodes of `nodes`, other than `me`, that are drawn on ring `k`.
pub open spec fn ring_members(nodes: Map<u32, Node>, me: NodeId, k: nat) -> Set<NodeId> {
    Set::new(
        |id: NodeId| nodes.contains_key(id.0) && id != me && ring_of(nodes[id.0].hops_away) == k,
    )
}

/// Each node of the roster but the own radio is on exactly one ring, chosen
/// by its hop count: ring 0 for direct neighbours (0 hops), ring 1 for one
/// hop, ring 2 for two or more, ring 3 when the count is unknown; the own
/// radio is on none.
pub proof fn lemma_ring_by_hops(nodes: Map<u32, Node>, me: NodeId, id: NodeId)
    requires
        nodes.contains_key(id.0),
    ensures
        id == me ==> forall|k: nat| !(#[trigger] ring_members(nodes, me, k)).contains(id),
        id != me ==> {
            let h = nodes[id.0].hops_away;
            &&& (ring_members(nodes, me, 0).contains(id) <==> h == Some(0u8))
            &&& (ring_members(nodes, me, 1).contains(id) <==> h == Some(1u8))
            &&& (ring_members(nodes, me, 2).contains(id) <==> (h matches Some(x) && x >= 2))
            &&& (ring_members(nodes, me, 3).contains(id) <==> h is None)
            &&& forall|k: nat| k > 3 ==> !(#[trigger] ring_members(nodes, me, k)).contains(id)
        },
{
}

fn insert_sorted(v: &mut Vec<NodeId>, x: NodeId)
    requires
        strictly_increasing(old(v)@),
        !old(v)@.contains(x),
    ensures
        strictly_increasing(final(v)@),
        final(v)@.to_set() == old(v)@.to_set().insert(x),
{
    let mut i: usize = 0;
    while i < v.len() && v[i].0 < x.0
        invariant
            i <= v@.len(),
            v@ == old(v)@,
            forall|k: int| 0 <= k < i ==> (#[trigger] v@[k]).0 < x.0,
        decreases v@.len() - i,
    {
        i = i + 1;
    }
    proof {
        if i < v@.len() {
            assert(v@[i as int] != x);
            assert(v@[i as int].0 != x.0);
        }
    }
    let ghost before = v@;
    v.insert(i, x);
    proof {
        assert(v@ =~= before.insert(i as int, x));
        assert forall|a: int, b: int| 0 <= a < b < v@.len() implies (#[trigger] v@[a]).0 < (
        #[trigger] v@[b]).0 by {
            if b < i {
                assert(v@[a] == before[a] && v@[b] == before[b]);
            } else if b == i {
                assert(v@[a] == before[a]);
            } else if a < i {
                assert(v@[a] == before[a] && v@[b] == before[b - 1]);
                assert(before[i as int].0 > x.0);
                if i < b - 1 {
                    assert(before[i as int].0 < before[b - 1].0);
                }
            } else if a == i {
                assert(v@[b] == before[b - 1]);
                assert(before[i as int].0 > x.0);
                if i < b - 1 {
                    assert(before[i as int].0 < before[b - 1].0);
                }
            } else {
                assert(v@[a] == before[a - 1] && v@[b] == before[b - 1]);
            }
        }
        assert forall|y: NodeId| v@.to_set().contains(y) <==> before.to_set().insert(x).contains(y) by {
            if v@.contains(y) {
                let k = choose|k: int| 0 <= k < v@.len() && v@[k] == y;
                if k < i {
                    assert(before[k] == y);
                } else if k > i {
                    assert(before[k - 1] == y);
                }
            }
            if before.contains(y) {
                let k = choose|k: int| 0 <= k < before.len() && before[k] == y;
                if k < i {
                    assert(v@[k] == y);
                } else {
                    assert(v@[k + 1] == y);
                }
            }
            if y == x {
                assert(v@[i as int] == x);
            }
        }
        assert(v@.to_set() =~= before.to_set().insert(x));
    }
}

/// Groups the nodes of `snapshot` other than its own radio by ring (direct
/// neighbours, one hop, more hops, unknown), each ring in increasing node
/// number.
pub fn group_by_ring(snapshot: &DeviceSnapshot) -> (r: [Vec<NodeId>; 4])
    ensures
        forall|k: int|
            0 <= k < 4 ==> strictly_increasing(#[trigger] r[k]@) && r[k]@.to_set() == ring_members(
                snapshot.nodes@,
                snapshot.my_node,
                k as nat,
            ),
{
    let ids = node_numbers(&snapshot.nodes);
    let ghost nodes = snapshot.nodes@;
    let ghost me = snapshot.my_node;
    let mut r0: Vec<NodeId> = Vec::new();
    let mut r1: Vec<NodeId> = Vec::new();
    let mut r2: Vec<NodeId> = Vec::new();
    let mut r3: Vec<NodeId> = Vec::new();
    let mut i: usize = 0;
    while i < ids.len()
        invariant
            i <= ids@.len(),
            nodes == snapshot.nodes@,
            me == snapshot.my_node,
            ids@.to_set() == nodes.dom(),
            ids@.no_duplicates(),
            strictly_increasing(r0@),
            strictly_increasing(r1@),
            strictly_increasing(r2@),
            strictly_increasing(r3@),
            r0@.to_set() == ring_seen(nodes, me, ids@.take(i as int), 0),
            r1@.to_set() == ring_seen(nodes, me, ids@.take(i as int), 1),
            r2@.to_set() == ring_seen(nodes, me, ids@.take(i as int), 2),
            r3@.to_set() == ring_seen(nodes, me, ids@.take(i as int), 3),
        decreases ids@.len() - i,
    {
        let id = ids[i];
        let ghost seen = ids@.take(i as int);
        let ghost seen2 = ids@.take(i + 1);
        assert(seen2 =~= seen.push(id));
        assert(!seen.contains(id)) by {
            if seen.contains(id) {
                let k = choose|k: int| 0 <= k < seen.len() && seen[k] == id;
                assert(ids@[k] == ids@[i as int]);
            }
        }
        assert(ids@.contains(id));
        assert(nodes.contains_key(id));
        if id != snapshot.my_node.0 {
            let hops = match snapshot.nodes.get(&id) {
                Some(n) => n.hops_away,
                None => None,
            };
            let nid = NodeId(id);
            let ghost k = ring_of(hops);
            proof {
                lemma_ring_seen_push(nodes, me, seen, id);
            }
            match hops {
                Some(0) => insert_sorted(&mut r0, nid),
                Some(1) => insert_sorted(&mut r1, nid),
                Some(_) => insert_sorted(&mut r2, nid),
                None => insert_sorted(&mut r3, nid),
            }
        } else {
            proof {
                lemma_ring_seen_push(nodes, me, seen, id);
            }
        }
        i = i + 1;
    }
    proof {
        assert(ids@.take(ids@.len() as int) =~= ids@);
        lemma_ring_seen_all(nodes, me, ids@);
    }
    [r0, r1, r2, r3]
}

/// The nodes numbered in `seen`, other than `me`, that are drawn on ring `k`.
pub open spec fn ring_seen(nodes: Map<u32, Node>, me: NodeId, seen: Seq<u32>, k: nat) -> Set<NodeId> {
    Set::new(
        |id: NodeId| seen.contains(id.0) && id != me && ring_of(nodes[id.0].hops_away) == k,
    )
}

proof fn lemma_ring_seen_push(nodes: Map<u32, Node>, me: NodeId, seen: Seq<u32>, id: u32)
    requires
        !seen.contains(id),
    ensures
        forall|k: nat|
            #![trigger ring_seen(nodes, me, seen.push(id), k)]
            ring_seen(nodes, me, seen.push(id), k) == if NodeId(id) != me && ring_of(
                nodes[id].hops_away,
            ) == k {
                ring_seen(nodes, me, seen, k).insert(NodeId(id))
            } else {
                ring_seen(nodes, me, seen, k)
            },
        forall|k: nat| !(#[trigger] ring_seen(nodes, me, seen, k)).contains(NodeId(id)),
{
    assert forall|k: nat| #![trigger ring_seen(nodes, me, seen.push(id), k)]
        ring_seen(nodes, me, seen.push(id), k) == if NodeId(id) != me && ring_of(
            nodes[id].hops_away,
        ) == k {
            ring_seen(nodes, me, seen, k).insert(NodeId(id))
        } else {
            ring_seen(nodes, me, seen, k)
        } by {
        assert forall|x: NodeId| seen.push(id).contains(x.0) <==> (seen.contains(x.0) || x.0 == id) by {
            if seen.push(id).contains(x.0) {
                let j = choose|j: int| 0 <= j < seen.push(id).len() && seen.push(id)[j] == x.0;
                if j < seen.len() {
                    assert(seen[j] == x.0);
                }
            }
            if seen.contains(x.0) {
                let j = choose|j: int| 0 <= j < seen.len() && seen[j] == x.0;
                assert(seen.push(id)[j] == x.0);
            }
            if x.0 == id {
                assert(seen.push(id)[seen.len() as int] == id);
            }
        }
        if NodeId(id) != me && ring_of(nodes[id].hops_away) == k {
            assert(ring_seen(nodes, me, seen.push(id), k) =~= ring_seen(nodes, me, seen, k).insert(
                NodeId(id),
            ));
        } else {
            assert(ring_seen(nodes, me, seen.push(id), k) =~= ring_seen(nodes, me, seen, k));
        }
    }
}

proof fn lemma_ring_seen_all(nodes: Map<u32, Node>, me: NodeId, ids: Seq<u32>)
    requires
        ids.to_set() == nodes.dom(),
    ensures
        forall|k: nat| #[trigger] ring_seen(nodes, me, ids, k) == ring_members(nodes, me, k),
{
    assert forall|k: nat| #[trigger] ring_seen(nodes, me, ids, k) == ring_members(nodes, me, k) by {
        assert forall|x: NodeId| ids.contains(x.0) <==> nodes.contains_key(x.0) by {
            assert(ids.to_set().contains(x.0) == ids.contains(x.0));
        }
        assert(ring_seen(nodes, me, ids, k) =~= ring_members(nodes, me, k));
    }
}

} // verus!
