use centrum_launcher::history::History;

#[test]
fn counts_start_at_zero_and_grow_by_one() {
    let mut h = History::new();
    assert_eq!(h.get("a"), 0);
    assert!(!h.contains_key("a"));
    h.record("a");
    h.record("b");
    h.record("a");
    assert_eq!(h.get("a"), 2);
    assert_eq!(h.get("b"), 1);
    assert_eq!(h.len(), 2);
    assert_eq!(h.key_at(0), "a");
    assert_eq!(h.key_at(1), "b");
    assert_eq!(h.count_at(0), 2);
}

#[test]
fn counts_stay_at_the_largest_value() {
    let mut h = History::new();
    h.set("a", u32::MAX - 1);
    h.record("a");
    assert_eq!(h.get("a"), u32::MAX);
    h.record("a");
    assert_eq!(h.get("a"), u32::MAX);
}

#[test]
fn remove_drops_one_key_only() {
    let mut h = History::new();
    h.set("a", 3);
    h.set("b", 4);
    h.set("c", 5);
    h.remove("b");
    h.remove("zz");
    assert_eq!(h.len(), 2);
    assert_eq!(h.get("a"), 3);
    assert_eq!(h.get("b"), 0);
    assert_eq!(h.get("c"), 5);
    assert_eq!(h.key_at(1), "c");
    let copy = h.duplicate();
    assert_eq!(copy.len(), 2);
    assert_eq!(copy.get("c"), 5);
}
