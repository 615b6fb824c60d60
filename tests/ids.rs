use ibapi::ids::IdSequence;

#[test]
fn allocations_rise_strictly() {
    let mut ids = IdSequence::starting_at(100);
    let mut seen = Vec::new();
    for _ in 0..50 {
        assert!(ids.can_allocate());
        seen.push(ids.allocate());
    }
    assert!(seen.windows(2).all(|w| w[0] < w[1]));
    assert_eq!(seen.first(), Some(&100));
    assert_eq!(seen.last(), Some(&149));
    assert_eq!(ids.peek(), 150);
}

#[test]
fn allocation_stops_at_the_top_of_the_range() {
    let mut ids = IdSequence::starting_at(i64::MAX - 1);
    assert!(ids.can_allocate());
    assert_eq!(ids.allocate(), i64::MAX - 1);
    assert!(!ids.can_allocate());
}
