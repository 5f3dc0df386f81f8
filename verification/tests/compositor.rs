use flutter_embedder::compositor::{clamp_copy_rect, CollectOutcome, Layer, LayerContent, StoreTable};
use flutter_embedder::gpu::CopyOp;

#[test]
fn handles_are_issued_in_order() {
    let mut t = StoreTable::new();
    assert_eq!(t.create(100, 50), 0);
    assert_eq!(t.create(200, 100), 1);
    assert_eq!(t.create(10, 10), 2);
    assert_eq!(t.entries.len(), 3);
    assert_eq!(t.entries[1].width, 200);
    assert_eq!(t.entries[1].height, 100);
}

#[test]
fn collecting_a_live_handle_releases_it() {
    let mut t = StoreTable::new();
    let id = t.create(64, 64);
    let (outcome, index) = t.collect(id);
    assert_eq!(outcome, CollectOutcome::Collected);
    assert_eq!(index, Some(0));
    assert_eq!(t.entries.len(), 0);
}

#[test]
fn collecting_the_same_handle_twice_is_reported_as_a_violation() {
    let mut t = StoreTable::new();
    let id = t.create(64, 64);
    assert_eq!(t.collect(id).0, CollectOutcome::Collected);
    let (outcome, index) = t.collect(id);
    assert_eq!(outcome, CollectOutcome::AlreadyCollected);
    assert_eq!(index, None);
}

#[test]
fn collecting_a_never_issued_handle_is_reported_as_a_violation() {
    let mut t = StoreTable::new();
    t.create(64, 64);
    let (outcome, index) = t.collect(999);
    assert_eq!(outcome, CollectOutcome::NeverIssued);
    assert_eq!(index, None);
}

#[test]
fn a_collected_handle_is_never_reissued() {
    let mut t = StoreTable::new();
    let first = t.create(32, 32);
    t.collect(first);
    let second = t.create(32, 32);
    assert!(second > first);
    assert_eq!(t.collect(first).0, CollectOutcome::AlreadyCollected);
}

#[test]
fn collecting_leaves_the_other_stores_alone() {
    let mut t = StoreTable::new();
    let a = t.create(1, 1);
    let b = t.create(2, 2);
    let c = t.create(3, 3);
    assert_eq!(t.collect(b).0, CollectOutcome::Collected);
    assert_eq!(t.entries.len(), 2);
    assert_eq!(t.entries[0].id, a);
    assert_eq!(t.entries[1].id, c);
    assert_eq!(t.find(a), Some(0));
    assert_eq!(t.find(c), Some(1));
    assert_eq!(t.find(b), None);
}

#[test]
fn a_fitting_layer_is_copied_exactly_as_requested() {
    let layer = Layer { content: LayerContent::Store(3), x: 10, y: 20, width: 100, height: 50 };
    let op = clamp_copy_rect(&layer, 200, 200, 640, 480);
    assert_eq!(op, CopyOp { store: 3, x: 10, y: 20, width: 100, height: 50 });
}

#[test]
fn an_oversized_layer_is_cut_to_the_store_and_frame() {
    // Wider than its store: cut to the store's allocated width.
    let layer = Layer { content: LayerContent::Store(1), x: 0, y: 0, width: 500, height: 500 };
    let op = clamp_copy_rect(&layer, 300, 300, 640, 480);
    assert_eq!((op.width, op.height), (300, 300));
    // Hanging off the frame edge: cut to what the frame still covers.
    let layer = Layer { content: LayerContent::Store(1), x: 600, y: 400, width: 100, height: 100 };
    let op = clamp_copy_rect(&layer, 2048, 2048, 640, 480);
    assert_eq!((op.x, op.y, op.width, op.height), (600, 400, 40, 80));
}

#[test]
fn a_layer_past_the_frame_copies_nothing() {
    let layer = Layer { content: LayerContent::Store(9), x: 700, y: 500, width: 10, height: 10 };
    let op = clamp_copy_rect(&layer, 64, 64, 640, 480);
    assert_eq!((op.x, op.y, op.width, op.height), (640, 480, 0, 0));
}
