//! Scheduling of map tiles: which tiles exist, which request goes out
//! next, when a failed tile may be tried again, and which ancestors stand in
//! for a tile that has not arrived. Fetching, decoding, storing and drawing
//! the tiles happen elsewhere.
use vstd::prelude::*;

use std::collections::{HashMap, HashSet, VecDeque};

verus! {

broadcast use vstd::std_specs::hash::group_hash_axioms;

/// A tile of the web-map pyramid: `2^zoom` by `2^zoom` tiles at each zoom.
#[derive(Copy, Clone, Debug, PartialEq, Eq, Hash, Structural)]
pub struct TileId {
    pub zoom: u8,
    pub x: u32,
    pub y: u32,
}

/// The deepest zoom the tile server has.
pub const OSM_MAX_ZOOM: u8 = 19;
/// Most requests waiting for a fetch; the oldest goes beyond it.
pub const MAX_PENDING: usize = 1024;
/// Most ancestor probes remembered; the record is cleared beyond it.
pub const MAX_ANCESTOR_PENDING: usize = 8192;
/// Waiting requests further than this from the zoom in view are dropped.
pub const STALE_ZOOM_DIFF: u8 = 2;
/// Most failed tiles remembered; the record is cleared beyond it.
pub const MAX_FAIL_BACKOFF: usize = 4096;

/// `2^k`.
pub open spec fn pow2(k: nat) -> nat
    decreases k,
{
    if k == 0 {
        1
    } else {
        2 * pow2((k - 1) as nat)
    }
}

/// Whether the tile lies on the map: `x` and `y` below `2^zoom` (and a zoom
/// whose width fits the coordinates).
pub open spec fn within_world(t: TileId) -> bool {
    t.zoom < 32 && t.x < pow2(t.zoom as nat) && t.y < pow2(t.zoom as nat)
}

/// Whether the tile lies on the map.
pub fn tile_within_world(t: TileId) -> (r: bool)
    ensures
        r == within_world(t),
{
    if t.zoom >= 32 {
        return false;
    }
    let mut max: u64 = 1;
    let mut i: u8 = 0;
    while i < t.zoom
        invariant
            t.zoom < 32,
            i <= t.zoom,
            max == pow2(i as nat),
            max <= 0x8000_0000,
        decreases t.zoom - i,
    {
        proof {
            lemma_pow2_bound((i + 1) as nat);
        }
        max = max * 2;
        i = i + 1;
    }
    (t.x as u64) < max && (t.y as u64) < max
}

proof fn lemma_pow2_mono(a: nat, b: nat)
    requires
        a <= b,
    ensures
        pow2(a) <= pow2(b),
    decreases b,
{
    if a < b {
        lemma_pow2_mono(a, (b - 1) as nat);
    }
}

proof fn lemma_pow2_bound(k: nat)
    requires
        k < 32,
    ensures
        pow2(k) <= 0x8000_0000,
{
    lemma_pow2_mono(k, 31);
    assert(pow2(31) == 0x8000_0000) by {
        reveal_with_fuel(pow2, 32);
    }
}

/// Whether the map shows the tile at all: on the map and not deeper than
/// the server goes.
pub open spec fn drawable(t: TileId) -> bool {
    t.zoom <= OSM_MAX_ZOOM && within_world(t)
}

/// Whether the map shows the tile at all.
pub fn is_drawable(t: TileId) -> (r: bool)
    ensures
        r == drawable(t),
{
    t.zoom <= OSM_MAX_ZOOM && tile_within_world(t)
}

/// The tile `k` levels up from `t` (`k <= t.zoom`): the one that covers it.
pub open spec fn ancestor(t: TileId, k: u8) -> TileId {
    TileId { zoom: (t.zoom - k) as u8, x: t.x >> k, y: t.y >> k }
}

/// The tile one level up, when there is one.
pub fn parent_of(t: TileId) -> (r: Option<TileId>)
    ensures
        t.zoom == 0 ==> r is None,
        t.zoom > 0 ==> r == Some(ancestor(t, 1)),
{
    if t.zoom == 0 {
        None
    } else {
        Some(TileId { zoom: t.zoom - 1, x: t.x >> 1u8, y: t.y >> 1u8 })
    }
}

/// The ancestors of `t`, nearest first: the tiles tried in turn when
/// looking for a cached tile to stand in for `t`.
pub fn ancestors(t: TileId) -> (r: Vec<TileId>)
    requires
        t.zoom < 32,
    ensures
        r@.len() == t.zoom,
        forall|i: int| 0 <= i < r@.len() ==> #[trigger] r@[i] == ancestor(t, (i + 1) as u8),
{
    let mut out: Vec<TileId> = Vec::new();
    let mut k: u8 = 1;
    while k <= t.zoom
        invariant
            1 <= k,
            k <= t.zoom + 1,
            t.zoom < 32,
            out@.len() == k - 1,
            forall|i: int| 0 <= i < out@.len() ==> #[trigger] out@[i] == ancestor(t, (i + 1) as u8),
        decreases t.zoom + 1 - k,
    {
        out.push(TileId { zoom: t.zoom - k, x: t.x >> k, y: t.y >> k });
        k = k + 1;
    }
    out
}

/// How long a failed tile waits before its next try, by the number of
/// failures before this one: 3 s, then 10 s, then 30 s.
pub open spec fn backoff_ms_spec(attempt: u32) -> u64 {
    if attempt == 0 {
        3000
    } else if attempt == 1 {
        10000
    } else {
        30000
    }
}

/// How long a failed tile waits before its next try, in milliseconds.
pub fn backoff_ms(attempt: u32) -> (r: u64)
    ensures
        r == backoff_ms_spec(attempt),
{
    if attempt == 0 {
        3000
    } else if attempt == 1 {
        10000
    } else {
        30000
    }
}

// ---------------------------------------------------------------------------
// The fetch queue
// ---------------------------------------------------------------------------

/// How far a tile's zoom is from the zoom in view.
pub open spec fn zoom_distance(t: TileId, observed_zoom: u8) -> nat {
    if t.zoom >= observed_zoom {
        (t.zoom - observed_zoom) as nat
    } else {
        (observed_zoom - t.zoom) as nat
    }
}

fn distance(t: TileId, observed_zoom: u8) -> (r: u8)
    ensures
        r as nat == zoom_distance(t, observed_zoom),
{
    if t.zoom >= observed_zoom {
        t.zoom - observed_zoom
    } else {
        observed_zoom - t.zoom
    }
}

/// Whether a waiting request is still worth fetching at the zoom in view.
pub open spec fn fresh_at(t: TileId, observed_zoom: u8) -> bool {
    zoom_distance(t, observed_zoom) <= STALE_ZOOM_DIFF
}

/// The test for a waiting request that is still worth fetching.
pub open spec fn fresh_test(observed_zoom: u8) -> spec_fn(TileId) -> bool {
    |t: TileId| fresh_at(t, observed_zoom)
}

/// The test for a waiting request that has gone stale.
pub open spec fn stale_test(observed_zoom: u8) -> spec_fn(TileId) -> bool {
    |t: TileId| !fresh_at(t, observed_zoom)
}

/// Drops the waiting requests too far from the zoom in view, keeping the
/// others in order; gives the dropped ones, in order, to be reported.
pub fn prune_stale(pending: &mut VecDeque<TileId>, observed_zoom: u8) -> (r: Vec<TileId>)
    ensures
        final(pending)@ == old(pending)@.filter(fresh_test(observed_zoom)),
        r@ == old(pending)@.filter(stale_test(observed_zoom)),
{
    let ghost keep = fresh_test(observed_zoom);
    let ghost drop = stale_test(observed_zoom);
    let mut kept: VecDeque<TileId> = VecDeque::new();
    let mut dropped: Vec<TileId> = Vec::new();
    let mut i: usize = 0;
    while i < pending.len()
        invariant
            pending@ == old(pending)@,
            i <= pending@.len(),
            keep == fresh_test(observed_zoom),
            drop == stale_test(observed_zoom),
            kept@ == pending@.take(i as int).filter(keep),
            dropped@ == pending@.take(i as int).filter(drop),
        decreases pending@.len() - i,
    {
        let t = pending[i];
        proof {
            assert(pending@.take(i + 1) =~= pending@.take(i as int).push(t));
            pending@.take(i as int).lemma_filter_push(t, keep);
            pending@.take(i as int).lemma_filter_push(t, drop);
            assert(keep(t) == fresh_at(t, observed_zoom));
            assert(drop(t) == !fresh_at(t, observed_zoom));
        }
        if distance(t, observed_zoom) <= STALE_ZOOM_DIFF {
            kept.push_back(t);
        } else {
            dropped.push(t);
        }
        i = i + 1;
    }
    assert(pending@.take(pending@.len() as int) =~= pending@);
    *pending = kept;
    dropped
}

/// Queues a tile for fetching; when more than `MAX_PENDING` wait, the
/// oldest go, and are given back in order to be reported.
pub fn enqueue(pending: &mut VecDeque<TileId>, t: TileId) -> (r: Vec<TileId>)
    requires
        old(pending)@.len() < usize::MAX,
    ensures
        ({
            let s = old(pending)@.push(t);
            if s.len() > MAX_PENDING {
                &&& final(pending)@ == s.skip(s.len() - MAX_PENDING)
                &&& r@ == s.take(s.len() - MAX_PENDING)
            } else {
                &&& final(pending)@ == s
                &&& r@.len() == 0
            }
        }),
{
    pending.push_back(t);
    let ghost s = pending@;
    let mut evicted: Vec<TileId> = Vec::new();
    if pending.len() <= MAX_PENDING {
        return evicted;
    }
    while pending.len() > MAX_PENDING
        invariant
            s.len() > MAX_PENDING,
            evicted@.len() + pending@.len() == s.len(),
            pending@.len() >= MAX_PENDING,
            pending@ == s.skip(evicted@.len() as int),
            evicted@ == s.take(evicted@.len() as int),
        decreases pending@.len(),
    {
        let ghost before = pending@;
        match pending.pop_front() {
            Some(x) => {
                proof {
                    let k = evicted@.len() as int;
                    assert(before == s.skip(k));
                    assert(before[0] == s.skip(k)[0]);
                    assert(x == s[k]);
                    assert(s.take(k + 1) =~= s.take(k).push(x));
                    assert(pending@ =~= s.skip(k + 1));
                }
                evicted.push(x);
            },
            None => {},
        }
    }
    assert(evicted@.len() == s.len() - MAX_PENDING);
    evicted
}

/// Whether position `i` of `pending` goes before position `j`: nearer the
/// zoom in view, or as near and queued later.
pub open spec fn goes_first(pending: Seq<TileId>, observed_zoom: u8, i: int, j: int) -> bool {
    zoom_distance(pending[i], observed_zoom) < zoom_distance(pending[j], observed_zoom) || (
    zoom_distance(pending[i], observed_zoom) == zoom_distance(pending[j], observed_zoom) && i > j)
}

/// The position of the waiting request to fetch next: the one nearest the
/// zoom in view, the most recently queued among equals; none when nothing
/// waits.
pub fn pick_priority(pending: &VecDeque<TileId>, observed_zoom: u8) -> (r: Option<usize>)
    ensures
        pending@.len() == 0 <==> r is None,
        r matches Some(i) ==> i < pending@.len() && forall|j: int|
            0 <= j < pending@.len() && j != i ==> goes_first(pending@, observed_zoom, i as int, j),
{
    if pending.len() == 0 {
        return None;
    }
    let mut best: usize = 0;
    let mut best_d: u8 = distance(pending[0], observed_zoom);
    let mut i: usize = 1;
    while i < pending.len()
        invariant
            1 <= i <= pending@.len(),
            best < i,
            best_d as nat == zoom_distance(pending@[best as int], observed_zoom),
            forall|j: int| 0 <= j < i && j != best ==> goes_first(pending@, observed_zoom, best as int, j),
        decreases pending@.len() - i,
    {
        let d = distance(pending[i], observed_zoom);
        if d <= best_d {
            proof {
                let ob = best as int;
                assert forall|j: int| 0 <= j < i + 1 && j != i implies goes_first(
                    pending@,
                    observed_zoom,
                    i as int,
                    j,
                ) by {
                    if j != ob {
                        assert(goes_first(pending@, observed_zoom, ob, j));
                    }
                }
            }
            best = i;
            best_d = d;
        }
        i = i + 1;
    }
    Some(best)
}

// ---------------------------------------------------------------------------
// Requests in flight and failures, on the map's side
// ---------------------------------------------------------------------------

/// The number a tile is recorded under: zoom, `x` and `y` side by side.
pub open spec fn tile_key(t: TileId) -> u128 {
    (t.zoom as int * 0x1_0000_0000_0000_0000 + t.x as int * 0x1_0000_0000 + t.y as int) as u128
}

/// Different tiles are recorded under different numbers.
pub proof fn lemma_tile_key_injective(a: TileId, b: TileId)
    ensures
        tile_key(a) == tile_key(b) <==> a == b,
{
    let ka = a.zoom as int * 0x1_0000_0000_0000_0000 + a.x as int * 0x1_0000_0000 + a.y as int;
    let kb = b.zoom as int * 0x1_0000_0000_0000_0000 + b.x as int * 0x1_0000_0000 + b.y as int;
    assert(ka < 0x1_0000_0000_0000_0000_0000_0000);
    assert(kb < 0x1_0000_0000_0000_0000_0000_0000);
    if ka == kb {
        assert(a.y == b.y);
        assert(a.x == b.x);
        assert(a.zoom == b.zoom);
    }
}

fn key_of(t: TileId) -> (r: u128)
    ensures
        r == tile_key(t),
{
    (t.zoom as u128) * 0x1_0000_0000_0000_0000u128 + (t.x as u128) * 0x1_0000_0000u128 + (t.y as u128)
}

/// When a failed tile may be tried again, and how many times it failed.
#[derive(Copy, Clone, Debug, PartialEq, Eq, Structural)]
pub struct FailState {
    pub retry_at_ms: u64,
    pub attempt: u32,
}

/// The map's record of tile requests: those in flight, those that failed
/// (with their retry time; milliseconds of a monotonic clock), and the
/// tiles whose ancestors were asked for.
#[derive(Debug)]
pub struct TileGate {
    pub pending: HashSet<u128>,
    pub fail_backoff: HashMap<u128, FailState>,
    pub ancestor_pending: HashSet<u128>,
}

impl Default for TileGate {
    fn default() -> (r: Self)
        ensures
            r.pending@.is_empty(),
            r.fail_backoff@.is_empty(),
            r.ancestor_pending@.is_empty(),
    {
        TileGate { pending: HashSet::new(), fail_backoff: HashMap::new(), ancestor_pending: HashSet::new() }
    }
}

/// Whether a request for a tile goes out now: not while its failure's
/// retry time is ahead, nor while one is in flight.
pub open spec fn may_request(g: Map<u128, FailState>, in_flight: Set<u128>, key: u128, now_ms: u64) -> bool {
    !(g.contains_key(key) && g[key].retry_at_ms > now_ms) && !in_flight.contains(key)
}

/// The failure record after tile `key` fails at `now_ms`: its count goes
/// up by one and it waits by the back-off for the failures before; the
/// whole record is dropped once it holds more than `MAX_FAIL_BACKOFF` tiles.
pub open spec fn failed_record(g: Map<u128, FailState>, key: u128, now_ms: u64) -> Map<u128, FailState> {
    let prev = if g.contains_key(key) {
        g[key].attempt
    } else {
        0
    };
    let wait = backoff_ms_spec(prev);
    let g2 = g.insert(
        key,
        FailState {
            retry_at_ms: if now_ms + wait <= u64::MAX {
                (now_ms + wait) as u64
            } else {
                now_ms
            },
            attempt: if prev == u32::MAX {
                u32::MAX
            } else {
                (prev + 1) as u32
            },
        },
    );
    if g2.len() > MAX_FAIL_BACKOFF {
        Map::empty()
    } else {
        g2
    }
}

impl TileGate {
    /// Asks for tile `t` at `now_ms` if it may be asked for, and says
    /// whether the request goes out (it is then in flight).
    pub fn queue_target(&mut self, t: TileId, now_ms: u64) -> (r: bool)
        ensures
            r == may_request(old(self).fail_backoff@, old(self).pending@, tile_key(t), now_ms),
            final(self).pending@ == if r {
                old(self).pending@.insert(tile_key(t))
            } else {
                old(self).pending@
            },
            final(self).fail_backoff@ == old(self).fail_backoff@,
            final(self).ancestor_pending@ == old(self).ancestor_pending@,
    {
        let k = key_of(t);
        match self.fail_backoff.get(&k) {
            Some(state) => {
                if state.retry_at_ms > now_ms {
                    return false;
                }
            },
            None => {},
        }
        if self.pending.contains(&k) {
            return false;
        }
        let _ = self.pending.insert(k);
        true
    }

    /// A tile arrived: it is no longer in flight and its failures are
    /// forgotten.
    pub fn on_delivered(&mut self, t: TileId)
        ensures
            final(self).pending@ == old(self).pending@.remove(tile_key(t)),
            final(self).fail_backoff@ == old(self).fail_backoff@.remove(tile_key(t)),
            final(self).ancestor_pending@ == old(self).ancestor_pending@,
    {
        let k = key_of(t);
        let _ = self.fail_backoff.remove(&k);
        let _ = self.pending.remove(&k);
    }

    /// The fetcher dropped tile `t` unfetched: it is no longer in flight.
    pub fn on_pruned(&mut self, t: TileId)
        ensures
            final(self).pending@ == old(self).pending@.remove(tile_key(t)),
            final(self).fail_backoff@ == old(self).fail_backoff@,
            final(self).ancestor_pending@ == old(self).ancestor_pending@,
    {
        let k = key_of(t);
        let _ = self.pending.remove(&k);
    }

    /// Tile `t` failed at `now_ms`: it is no longer in flight and waits
    /// before its next try.
    pub fn on_failed(&mut self, t: TileId, now_ms: u64)
        ensures
            final(self).pending@ == old(self).pending@.remove(tile_key(t)),
            final(self).fail_backoff@ == failed_record(old(self).fail_backoff@, tile_key(t), now_ms),
            final(self).ancestor_pending@ == old(self).ancestor_pending@,
    {
        let k = key_of(t);
        let _ = self.pending.remove(&k);
        let prev: u32 = match self.fail_backoff.get(&k) {
            Some(s) => s.attempt,
            None => 0,
        };
        let wait = backoff_ms(prev);
        let retry_at_ms = match now_ms.checked_add(wait) {
            Some(v) => v,
            None => now_ms,
        };
        let attempt = prev.saturating_add(1);
        let _ = self.fail_backoff.insert(k, FailState { retry_at_ms, attempt });
        if self.fail_backoff.len() > MAX_FAIL_BACKOFF {
            self.fail_backoff.clear();
        }
    }

    /// Records that the ancestors of `t` are being looked for, and says
    /// whether that is new (the probe then goes out); the record is
    /// cleared first once it holds `MAX_ANCESTOR_PENDING` tiles.
    pub fn spawn_ancestor_probe(&mut self, t: TileId) -> (r: bool)
        ensures
            ({
                let before = if old(self).ancestor_pending@.len() >= MAX_ANCESTOR_PENDING {
                    Set::<u128>::empty()
                } else {
                    old(self).ancestor_pending@
                };
                &&& r == !before.contains(tile_key(t))
                &&& final(self).ancestor_pending@ == before.insert(tile_key(t))
            }),
            final(self).pending@ == old(self).pending@,
            final(self).fail_backoff@ == old(self).fail_backoff@,
    {
        if self.ancestor_pending.len() >= MAX_ANCESTOR_PENDING {
            self.ancestor_pending.clear();
        }
        self.ancestor_pending.insert(key_of(t))
    }

    /// Forgets every request and failure, after the tile store was emptied.
    pub fn purge(&mut self)
        ensures
            final(self).pending@.is_empty(),
            final(self).fail_backoff@.is_empty(),
            final(self).ancestor_pending@.is_empty(),
    {
        self.pending.clear();
        self.fail_backoff.clear();
        self.ancestor_pending.clear();
    }
}

/// A tile that just failed is not asked for again before its back-off has
/// passed (unless the failure record overflowed and was dropped), and is
/// asked for again once it has passed and nothing is in flight for it.
pub proof fn lemma_failed_tile_waits(
    g: Map<u128, FailState>,
    in_flight: Set<u128>,
    t: TileId,
    now_ms: u64,
    later_ms: u64,
)
    requires
        failed_record(g, tile_key(t), now_ms).contains_key(tile_key(t)),
    ensures
        ({
            let g2 = failed_record(g, tile_key(t), now_ms);
            let prev = if g.contains_key(tile_key(t)) {
                g[tile_key(t)].attempt
            } else {
                0
            };
            &&& now_ms + backoff_ms_spec(prev) <= u64::MAX ==> g2[tile_key(t)].retry_at_ms == now_ms
                + backoff_ms_spec(prev)
            &&& later_ms < g2[tile_key(t)].retry_at_ms ==> !may_request(g2, in_flight, tile_key(t), later_ms)
            &&& later_ms >= g2[tile_key(t)].retry_at_ms && !in_flight.contains(tile_key(t))
                ==> may_request(g2, in_flight, tile_key(t), later_ms)
        }),
{
}

} // verus!
