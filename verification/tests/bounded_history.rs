use coriolis::History;
use coriolis::MAX_PATH_LEN;

#[test]
fn history_starts_empty() {
    let h: History<u32> = History::new();
    assert_eq!(h.len(), 0);
}

#[test]
fn history_keeps_pushes_in_order_below_the_bound() {
    let mut h: History<usize> = History::new();
    for v in 0..100 {
        h.push(v * 3);
    }
    assert_eq!(h.len(), 100);
    for i in 0..100 {
        assert_eq!(*h.get(i), i * 3);
    }
}

#[test]
fn history_never_exceeds_the_bound_and_keeps_the_most_recent() {
    let mut h: History<usize> = History::new();
    let total = MAX_PATH_LEN + 5;
    for v in 0..total {
        h.push(v);
    }
    assert_eq!(h.len(), MAX_PATH_LEN);
    // the five oldest entries were discarded; the rest are chronological
    assert_eq!(*h.get(0), 5);
    for i in 0..10 {
        assert_eq!(*h.get(i), i + 5);
    }
    assert_eq!(*h.get(MAX_PATH_LEN - 1), total - 1);
}

#[test]
fn history_at_exactly_the_bound_keeps_everything() {
    let mut h: History<usize> = History::new();
    for v in 0..MAX_PATH_LEN {
        h.push(v);
    }
    assert_eq!(h.len(), MAX_PATH_LEN);
    assert_eq!(*h.get(0), 0);
    assert_eq!(*h.get(MAX_PATH_LEN - 1), MAX_PATH_LEN - 1);
}
