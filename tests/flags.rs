use tskit::flags::{
    IndividualFlags, NodeFlags, SimplificationOptions, TableClearOptions,
    TableIntegrityCheckFlags, TableSortOptions, TreeFlags,
};

#[test]
fn node_is_not_sample() {
    let n = NodeFlags::default();
    assert!(!n.is_sample());
}

#[test]
fn node_is_sample() {
    let n = NodeFlags::new_sample();
    assert!(n.is_sample());
}

#[test]
fn none_is_identity_for_union() {
    let a = SimplificationOptions::from(
        SimplificationOptions::KEEP_UNARY | SimplificationOptions::FILTER_SITES,
    );
    let none = SimplificationOptions::from(SimplificationOptions::NONE);
    assert_eq!(none.union(a), a);
    assert_eq!(a.union(none), a);
}

#[test]
fn contains_what_was_inserted() {
    let mut flags = SimplificationOptions::default();
    flags.insert(SimplificationOptions::from(SimplificationOptions::KEEP_UNARY));
    flags.insert(SimplificationOptions::from(SimplificationOptions::FILTER_POPULATIONS));
    assert!(flags.contains(SimplificationOptions::from(SimplificationOptions::KEEP_UNARY)));
    assert!(flags.contains(SimplificationOptions::from(
        SimplificationOptions::FILTER_POPULATIONS
    )));
    assert!(!flags.contains(SimplificationOptions::from(SimplificationOptions::FILTER_SITES)));
    assert_eq!(flags.bits(), 16 | 2);
}

#[test]
fn default_flags_are_none() {
    assert_eq!(SimplificationOptions::default().bits(), SimplificationOptions::NONE);
    assert_eq!(TreeFlags::default(), TreeFlags::empty());
    assert!(TableClearOptions::default().is_empty());
    assert_eq!(NodeFlags::default().bits(), 0);
}

#[test]
fn remove_and_intersection() {
    let mut f = TreeFlags::from(TreeFlags::SAMPLE_LISTS | TreeFlags::NO_SAMPLE_COUNTS);
    f.remove(TreeFlags::from(TreeFlags::SAMPLE_LISTS));
    assert_eq!(f.bits(), TreeFlags::NO_SAMPLE_COUNTS);
    let g = TreeFlags::from(TreeFlags::SAMPLE_LISTS | TreeFlags::NO_SAMPLE_COUNTS);
    let h = g.intersection(TreeFlags::from(TreeFlags::SAMPLE_LISTS));
    assert_eq!(h.bits(), 2);
    assert!(g.intersects(h));
    assert!(!f.intersects(h));
}

#[test]
fn closed_sets_reject_unknown_bits() {
    assert!(TableSortOptions::from_bits(1).is_none());
    assert_eq!(
        TableSortOptions::from_bits(TableSortOptions::NO_CHECK_INTEGRITY).map(|f| f.bits()),
        Some(536870912)
    );
    assert_eq!(TreeFlags::from_bits_truncate(7).bits(), 6);
    assert_eq!(TreeFlags::from(1).bits(), 0);
    let raw = TreeFlags { bits: 1 };
    assert!(!raw.is_valid());
    assert!(TreeFlags::all().is_valid());
    assert_eq!(TableIntegrityCheckFlags::all().bits(), 255);
}

#[test]
fn node_and_individual_flags_keep_user_bits() {
    let n = NodeFlags::from(1 << 20 | 1);
    assert_eq!(n.bits(), 1 << 20 | 1);
    assert!(n.is_valid());
    assert!(n.is_sample());
    let i = IndividualFlags::from(u32::MAX);
    assert_eq!(i.bits(), u32::MAX);
    assert!(i.is_valid());
    assert!(NodeFlags::from_bits(1 << 20).is_none());
}
