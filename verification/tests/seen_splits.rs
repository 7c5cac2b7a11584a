use ffx_autosplitter::splits::{SeenSplits, Splits};

#[test]
fn second_insert_reports_already_present() {
    let mut seen = SeenSplits::empty();
    assert!(seen.insert(&Splits::Ammes));
    assert!(!seen.insert(&Splits::Ammes));
    assert!(!seen.insert(&Splits::Ammes));
}

#[test]
fn size_grows_by_at_most_one_per_distinct_id() {
    let mut seen = SeenSplits::empty();
    assert_eq!(seen.inner(), 0);
    assert!(seen.insert(&Splits::Ammes));
    assert_eq!(seen.inner().count_ones(), 1);
    assert!(!seen.insert(&Splits::Ammes));
    assert_eq!(seen.inner().count_ones(), 1);
    assert!(seen.insert(&Splits::Klikk));
    assert_eq!(seen.inner().count_ones(), 2);
    assert!(seen.insert(&Splits::YuYevon));
    assert_eq!(seen.inner().count_ones(), 3);
    assert!(!seen.insert(&Splits::Klikk));
    assert_eq!(seen.inner().count_ones(), 3);
}

#[test]
fn distinct_splits_use_distinct_bits() {
    let mut a = SeenSplits::empty();
    let mut b = SeenSplits::empty();
    a.insert(&Splits::Ammes);
    b.insert(&Splits::Guards4);
    assert_ne!(a.inner(), b.inner());
    assert_eq!(a.inner(), 1);
    assert_eq!(b.inner(), 1u128 << 64);
}
