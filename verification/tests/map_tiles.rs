use std::collections::VecDeque;

use mt::ui::map_tiles::{
    ancestors, backoff_ms, enqueue, is_drawable, parent_of, pick_priority, prune_stale,
    tile_within_world, TileGate, TileId, MAX_PENDING,
};

fn tile(zoom: u8, x: u32, y: u32) -> TileId {
    TileId { zoom, x, y }
}

#[test]
fn world_bounds() {
    assert!(tile_within_world(tile(0, 0, 0)));
    assert!(!tile_within_world(tile(0, 1, 0)));
    assert!(tile_within_world(tile(3, 7, 7)));
    assert!(!tile_within_world(tile(3, 8, 0)));
    assert!(tile_within_world(tile(31, u32::MAX >> 1, 0)));
    assert!(!tile_within_world(tile(32, 0, 0)));
    assert!(is_drawable(tile(19, 5, 5)));
    assert!(!is_drawable(tile(20, 5, 5)));
}

#[test]
fn pyramid_walk() {
    assert_eq!(parent_of(tile(0, 0, 0)), None);
    assert_eq!(parent_of(tile(5, 13, 6)), Some(tile(4, 6, 3)));
    let up = ancestors(tile(3, 5, 6));
    assert_eq!(up, vec![tile(2, 2, 3), tile(1, 1, 1), tile(0, 0, 0)]);
    assert!(ancestors(tile(0, 0, 0)).is_empty());
}

#[test]
fn fetch_backoff_schedule() {
    assert_eq!(backoff_ms(0), 3_000);
    assert_eq!(backoff_ms(1), 10_000);
    assert_eq!(backoff_ms(2), 30_000);
    assert_eq!(backoff_ms(9), 30_000);
}

#[test]
fn stale_requests_are_pruned() {
    let mut q: VecDeque<TileId> =
        VecDeque::from(vec![tile(10, 0, 0), tile(14, 1, 1), tile(12, 2, 2), tile(9, 3, 3)]);
    let dropped = prune_stale(&mut q, 12);
    assert_eq!(q, VecDeque::from(vec![tile(10, 0, 0), tile(14, 1, 1), tile(12, 2, 2)]));
    assert_eq!(dropped, vec![tile(9, 3, 3)]);
}

#[test]
fn queue_overflow_evicts_oldest() {
    let mut q: VecDeque<TileId> = (0..MAX_PENDING as u32).map(|i| tile(5, i, 0)).collect();
    let evicted = enqueue(&mut q, tile(6, 0, 0));
    assert_eq!(evicted, vec![tile(5, 0, 0)]);
    assert_eq!(q.len(), MAX_PENDING);
    assert_eq!(q[0], tile(5, 1, 0));
    assert_eq!(q[MAX_PENDING - 1], tile(6, 0, 0));
    let mut small = VecDeque::new();
    assert!(enqueue(&mut small, tile(1, 0, 0)).is_empty());
}

#[test]
fn nearest_zoom_first_latest_among_equals() {
    assert_eq!(pick_priority(&VecDeque::new(), 3), None);
    let q = VecDeque::from(vec![tile(5, 0, 0), tile(3, 0, 0), tile(7, 0, 0), tile(3, 1, 1), tile(4, 0, 0)]);
    assert_eq!(pick_priority(&q, 3), Some(3));
    assert_eq!(pick_priority(&q, 6), Some(2));
}

#[test]
fn request_gate() {
    let mut g = TileGate::default();
    let t = tile(4, 1, 2);
    assert!(g.queue_target(t, 0));
    assert!(!g.queue_target(t, 0));
    g.on_failed(t, 1_000);
    assert!(!g.queue_target(t, 3_999));
    assert!(g.queue_target(t, 4_000));
    g.on_failed(t, 5_000);
    assert!(!g.queue_target(t, 14_999));
    assert!(g.queue_target(t, 15_000));
    g.on_delivered(t);
    assert!(g.queue_target(t, 15_000));
    g.on_pruned(t);
    assert!(g.queue_target(t, 15_001));
    assert!(g.spawn_ancestor_probe(t));
    assert!(!g.spawn_ancestor_probe(t));
    g.purge();
    assert!(g.spawn_ancestor_probe(t));
}
