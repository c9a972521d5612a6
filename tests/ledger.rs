use thresher::ledger::{change, edge};
use thresher::{Change, Event};

#[test]
fn edge_fires_on_upward_crossing() {
    assert_eq!(edge(600_000, 600_000, 1_048_576), Some(1_200_000));
    assert_eq!(edge(0, 600_000, 1_048_576), None);
    assert_eq!(edge(1_200_000, 600_000, 1_048_576), None);
}

#[test]
fn edge_fires_when_reaching_threshold_exactly() {
    assert_eq!(edge(99, 1, 100), Some(100));
    assert_eq!(edge(100, 0, 100), None);
    assert_eq!(edge(99, 0, 100), None);
}

#[test]
fn edge_with_disabled_threshold() {
    assert_eq!(edge(0, usize::MAX - 1, usize::MAX), None);
    assert_eq!(edge(1, usize::MAX - 1, usize::MAX), Some(usize::MAX));
}

#[test]
fn edge_wraps_like_the_counter() {
    assert_eq!(edge(usize::MAX - 1, 3, 10), None);
    assert_eq!(edge(usize::MAX - 1, 3, 1), None);
}

#[test]
fn change_of_each_event() {
    assert_eq!(change(Event::Alloc { size: 64, succeeded: true }), Change::Grow(64));
    assert_eq!(change(Event::Alloc { size: 64, succeeded: false }), Change::Unchanged);
    assert_eq!(change(Event::Dealloc { size: 32 }), Change::Shrink(32));
    let grow = Event::Realloc { old_size: 100_000, new_size: 1_200_000, succeeded: true };
    assert_eq!(change(grow), Change::Grow(1_100_000));
    let shrink = Event::Realloc { old_size: 500, new_size: 120, succeeded: true };
    assert_eq!(change(shrink), Change::Shrink(380));
    let same = Event::Realloc { old_size: 500, new_size: 500, succeeded: true };
    assert_eq!(change(same), Change::Shrink(0));
    let failed = Event::Realloc { old_size: 1, new_size: 500, succeeded: false };
    assert_eq!(change(failed), Change::Unchanged);
}
