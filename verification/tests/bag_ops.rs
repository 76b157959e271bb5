//! Operation-by-operation behavior of the bag, on integer elements.

use bag::text::{comma_separated, decimal_string};
use bag::Bag;

#[test]
fn new_bag_is_empty_with_capacity_one() {
    let b: Bag<u64> = Bag::new();
    assert_eq!(1, b.get_capacity());
    assert_eq!(0, b.size());
    assert!(b.get_data().is_empty());
}

#[test]
fn new_with_capacity_sets_the_counter() {
    let b: Bag<u64> = Bag::new_with_capacity(10);
    assert_eq!(10, b.get_capacity());
    assert_eq!(0, b.size());
}

#[test]
fn insert_keeps_order_and_doubles_when_full() {
    let mut b: Bag<u64> = Bag::new();
    b.insert(7);
    assert_eq!(1, b.get_capacity());
    b.insert(9);
    assert_eq!(2, b.get_capacity());
    b.insert(7);
    assert_eq!(4, b.get_capacity());
    assert_eq!(&vec![7, 9, 7], b.get_data());
    assert_eq!(3, b.size());
}

#[test]
fn ensure_capacity_grows_but_never_shrinks() {
    let mut b: Bag<u64> = Bag::new_with_capacity(3);
    b.insert(1);
    b.insert(2);

    b.ensure_capacity(8);
    assert_eq!(8, b.get_capacity());
    assert_eq!(&vec![1, 2], b.get_data());
    assert_eq!(2, b.size());

    b.ensure_capacity(5);
    assert_eq!(8, b.get_capacity());
    assert_eq!(2, b.size());
}

#[test]
fn trim_to_size_tightens_to_used_or_one() {
    let mut b: Bag<u64> = Bag::new_with_capacity(9);
    b.trim_to_size();
    assert_eq!(1, b.get_capacity());

    let mut c: Bag<u64> = Bag::new_with_capacity(9);
    c.insert(4);
    c.insert(5);
    c.insert(6);
    c.trim_to_size();
    assert_eq!(3, c.get_capacity());
    assert_eq!(&vec![4, 5, 6], c.get_data());

    c.trim_to_size();
    assert_eq!(3, c.get_capacity());
}

#[test]
fn occurrences_counts_matching_elements() {
    let mut b: Bag<u64> = Bag::new();
    b.insert(15);
    b.insert(5);
    b.insert(15);
    assert_eq!(2, b.occurrences(15));
    assert_eq!(1, b.occurrences(5));
    assert_eq!(0, b.occurrences(42));
}

#[test]
fn erase_removes_every_match_and_shifts_left() {
    let mut b: Bag<u64> = Bag::new();
    b.insert(1);
    b.insert(2);
    b.insert(1);
    b.insert(3);
    b.insert(1);
    let cap_before = b.get_capacity();

    assert_eq!(3, b.erase(1));
    assert_eq!(&vec![2, 3], b.get_data());
    assert_eq!(2, b.size());
    assert_eq!(0, b.occurrences(1));
    assert_eq!(cap_before, b.get_capacity());
}

#[test]
fn erase_of_absent_value_changes_nothing() {
    let mut b: Bag<u64> = Bag::new();
    assert_eq!(0, b.erase(3));
    assert_eq!(0, b.size());

    b.insert(1);
    b.insert(2);
    assert_eq!(0, b.erase(3));
    assert_eq!(&vec![1, 2], b.get_data());
    assert_eq!(2, b.size());
}

#[test]
fn erase_one_removes_only_the_first_match() {
    let mut b: Bag<u64> = Bag::new();
    b.insert(2);
    b.insert(1);
    b.insert(1);
    b.insert(3);

    assert!(b.erase_one(1));
    assert_eq!(&vec![2, 1, 3], b.get_data());
    assert_eq!(3, b.size());
}

#[test]
fn erase_one_of_absent_value_returns_false_and_changes_nothing() {
    let mut b: Bag<u64> = Bag::new();
    b.insert(2);
    b.insert(3);
    let cap_before = b.get_capacity();

    assert!(!b.erase_one(5));
    assert_eq!(&vec![2, 3], b.get_data());
    assert_eq!(2, b.size());
    assert_eq!(cap_before, b.get_capacity());
}

#[test]
fn equality_needs_capacity_count_and_positions() {
    let mut a: Bag<u64> = Bag::new_with_capacity(4);
    let mut b: Bag<u64> = Bag::new_with_capacity(4);
    assert!(a.eq(&b));
    assert!(!a.ne(&b));

    a.insert(1);
    a.insert(2);
    b.insert(1);
    b.insert(2);
    assert!(a.eq(&b));

    // Same multiset in a different order: sequence equality says unequal.
    let mut c: Bag<u64> = Bag::new_with_capacity(4);
    c.insert(2);
    c.insert(1);
    assert!(a.ne(&c));

    // Same elements but a different capacity: unequal.
    let mut d: Bag<u64> = Bag::new_with_capacity(8);
    d.insert(1);
    d.insert(2);
    assert!(a.ne(&d));

    // Same prefix but a different used count: unequal.
    let mut e: Bag<u64> = Bag::new_with_capacity(4);
    e.insert(1);
    assert!(a.ne(&e));
}

#[test]
fn copies_are_equal_and_independent() {
    let mut source: Bag<u64> = Bag::new_with_capacity(5);
    source.insert(10);
    source.insert(20);

    let mut copy = Bag::new_from_bag(&source);
    assert!(copy.eq(&source));
    assert_eq!(5, copy.get_capacity());

    copy.insert(30);
    assert_eq!(2, source.size());
    assert_eq!(3, copy.size());

    source.erase(10);
    assert_eq!(1, copy.occurrences(10));

    let cloned = source.clone();
    assert!(cloned.eq(&source));
}

#[test]
fn add_assign_appends_and_sums_capacities() {
    // No growth needed: the combined count fits the left capacity.
    let mut x: Bag<u64> = Bag::new_with_capacity(10);
    let mut y: Bag<u64> = Bag::new_with_capacity(2);
    x.insert(1);
    y.insert(2);
    y.insert(3);
    x.add_assign(y);
    assert_eq!(&vec![1, 2, 3], x.get_data());
    assert_eq!(3, x.size());
    assert_eq!(12, x.get_capacity());

    // Growth first: the left side grows to the combined count, then the
    // right capacity is added on top.
    let mut a: Bag<u64> = Bag::new();
    let mut b: Bag<u64> = Bag::new();
    a.insert(4);
    b.insert(5);
    a.add_assign(b);
    assert_eq!(&vec![4, 5], a.get_data());
    assert_eq!(2, a.size());
    assert_eq!(3, a.get_capacity());
}

#[test]
fn add_builds_a_fresh_bag_with_doubled_capacity_sum() {
    let mut x: Bag<u64> = Bag::new_with_capacity(2);
    let mut y: Bag<u64> = Bag::new_with_capacity(3);
    x.insert(1);
    y.insert(2);

    let z = x.add(y);
    assert_eq!(&vec![1, 2], z.get_data());
    assert_eq!(2, z.size());
    assert_eq!(10, z.get_capacity());
}

#[test]
fn fmt_lists_elements_capacity_and_used() {
    let mut b: Bag<u64> = Bag::new();
    b.insert(10);
    b.insert(20);
    let rendered = vec!["10".to_string(), "20".to_string()];
    assert_eq!("Bag\ndata: 10, 20\ncapacity: 2\nused: 2", b.fmt(&rendered));

    let empty: Bag<u64> = Bag::new();
    let no_parts: Vec<String> = Vec::new();
    assert_eq!("Bag\ndata: \ncapacity: 1\nused: 0", empty.fmt(&no_parts));
}

#[test]
fn decimal_rendering_is_exact() {
    assert_eq!("0", decimal_string(0));
    assert_eq!("7", decimal_string(7));
    assert_eq!("10", decimal_string(10));
    assert_eq!("905", decimal_string(905));
    assert_eq!("18446744073709551615", decimal_string(u64::MAX));
}

#[test]
fn comma_separation_has_no_trailing_separator() {
    let none: Vec<String> = Vec::new();
    assert_eq!("", comma_separated(&none));
    assert_eq!("solo", comma_separated(&vec!["solo".to_string()]));
    assert_eq!(
        "a, b, c",
        comma_separated(&vec!["a".to_string(), "b".to_string(), "c".to_string()])
    );
}
