use ffx_autosplitter::pair::Pair;

fn fresh() -> Pair<u32> {
    Pair::steady(0u32)
}

#[test]
fn update_stores_previous_and_new() {
    let mut p = fresh();
    p.update(5);
    p.update(7);
    assert_eq!(p.old, 5);
    assert_eq!(p.current, 7);
    assert!(p.changed());
}

#[test]
fn update_same_value_reads_unchanged() {
    let mut p = fresh();
    p.update(5);
    p.update(5);
    assert_eq!(p.old, 5);
    assert_eq!(p.current, 5);
    assert!(!p.changed());
}

#[test]
fn refresh_failed_read_keeps_pair() {
    let mut p = fresh();
    p.update(5);
    p.update(9);
    p.refresh(None);
    assert_eq!(p.old, 5);
    assert_eq!(p.current, 9);
    p.refresh(Some(11));
    assert_eq!(p.old, 9);
    assert_eq!(p.current, 11);
}

#[test]
fn changed_to_needs_a_transition() {
    let mut p = fresh();
    p.update(6);
    assert!(p.changed_to(&6));
    p.update(6);
    assert!(!p.changed_to(&6));
    assert!(!p.changed_to(&7));
}

#[test]
fn changed_from_to_matches_both_sides() {
    let mut p = fresh();
    p.update(5);
    p.update(6);
    assert!(p.changed_from_to(&5, &6));
    assert!(!p.changed_from_to(&6, &5));
    assert!(!p.changed_from_to(&5, &5));
}

#[test]
fn either_checks_both_sides() {
    let mut p = fresh();
    p.update(3);
    p.update(8);
    assert!(p.either(3));
    assert!(p.either(8));
    assert!(!p.either(5));
}
