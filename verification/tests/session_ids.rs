use command_channel::session::{SessionIds, FIRST_SESSION_ID};

#[test]
fn first_identifier_is_one() {
    assert_eq!(FIRST_SESSION_ID, 1);
    let mut ids = SessionIds::new();
    assert_eq!(ids.issued_count(), 0);
    assert_eq!(ids.allocate(), Some(1));
    assert_eq!(ids.allocate(), Some(2));
    assert_eq!(ids.issued_count(), 2);
}

#[test]
fn identifiers_are_pairwise_distinct() {
    let mut ids = SessionIds::new();
    let mut seen: Vec<u64> = Vec::new();
    for _ in 0..200 {
        let id = ids.allocate().unwrap();
        assert!(!seen.contains(&id));
        seen.push(id);
    }
    assert_eq!(ids.issued_count(), 200);
}

#[test]
fn allocator_can_start_anywhere() {
    let mut ids = SessionIds::starting_at(40);
    assert_eq!(ids.allocate(), Some(40));
    assert_eq!(ids.allocate(), Some(41));
    let mut zero = SessionIds::starting_at(0);
    assert_eq!(zero.allocate(), Some(0));
}

#[test]
fn exhausted_allocator_hands_out_nothing() {
    let mut ids = SessionIds::starting_at(u64::MAX - 1);
    assert_eq!(ids.allocate(), Some(u64::MAX - 1));
    assert_eq!(ids.allocate(), None);
    assert_eq!(ids.allocate(), None);
    assert_eq!(ids.issued_count(), 1);
}
