use lol_clip_tool::events::EventTracker;

#[test]
fn an_event_id_is_taken_in_once() {
    let mut t: EventTracker<&str> = EventTracker::new();
    assert!(t.take_in(1, "a"));
    assert!(t.take_in(2, "b"));
    assert!(!t.take_in(1, "a again"));
    assert!(t.has_seen(1) && t.has_seen(2) && !t.has_seen(3));
    assert_eq!(t.pending(), &vec![(1, "a"), (2, "b")]);
}

#[test]
fn release_splits_waiting_items_in_order() {
    let mut t: EventTracker<u32> = EventTracker::new();
    for (id, x) in [(10, 100u32), (11, 101), (12, 102), (13, 103)] {
        t.take_in(id, x);
    }
    let out = t.release(&vec![true, false, true, false]);
    assert_eq!(out, vec![(10, 100), (12, 102)]);
    assert_eq!(t.pending(), &vec![(11, 101), (13, 103)]);
    let out = t.release(&vec![false, true]);
    assert_eq!(out, vec![(13, 103)]);
    assert_eq!(t.pending(), &vec![(11, 101)]);
    assert!(t.has_seen(13));
    assert!(!t.take_in(13, 0));
}

#[test]
fn release_of_nothing() {
    let mut t: EventTracker<u8> = EventTracker::new();
    assert!(t.release(&vec![]).is_empty());
    assert!(t.pending().is_empty());
}

#[test]
fn released_ids_never_come_back() {
    // Polls that repeat the same events: each id is handed on once.
    let mut t: EventTracker<u32> = EventTracker::new();
    let mut handed: Vec<i64> = Vec::new();
    for round in 0..4u32 {
        for id in 0..3i64 {
            t.take_in(id, round);
        }
        let ready: Vec<bool> = t.pending().iter().map(|(id, _)| *id <= round as i64).collect();
        for (id, _) in t.release(&ready) {
            handed.push(id);
        }
    }
    assert_eq!(handed, vec![0, 1, 2]);
    assert!(t.pending().is_empty());
}
