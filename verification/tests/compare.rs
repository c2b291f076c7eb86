use rangetype::RangeType;
use std::cmp::Ordering;

#[test]
fn test_eq() {
    assert!(RangeType::new(1, 0..1) == RangeType::new(1, 0..1));
}

#[test]
#[should_panic]
fn test_neq() {
    assert!(RangeType::new(1, 0..1) != RangeType::new(1, 0..1));
}

#[test]
fn test_neq_range() {
    assert!(RangeType::new(1, 0..1) != RangeType::new(1, 0..3));
}

#[test]
fn test_less_than() {
    assert!(RangeType::new(1, 0..3) < RangeType::new(2, 1..4));
}

#[test]
fn equality_looks_at_each_part() {
    let x = RangeType::new(1, 0..3);
    assert!(x != RangeType::new(2, 0..3));
    assert!(x != RangeType::new(1, 1..3));
    assert!(x != RangeType::new(1, 0..4));
    assert!(x == RangeType::new(1, 0..3));
}

#[test]
fn order_looks_at_the_payload_alone() {
    let a = RangeType::new(1, 0..3);
    let b = RangeType::new(1, 1..4);
    assert!(a != b);
    assert!(!(a < b));
    assert!(!(a > b));
    assert!(a <= b);
    assert!(a >= b);
    assert_eq!(a.partial_cmp(&b), Some(Ordering::Equal));
    assert_eq!(a.cmp(&b), Ordering::Equal);
}

#[test]
fn order_of_payloads() {
    let one = RangeType::new(1, 0..9);
    let two = RangeType::new(2, 0..3);
    assert_eq!(one.cmp(&two), Ordering::Less);
    assert_eq!(two.cmp(&one), Ordering::Greater);
    assert_eq!(one.partial_cmp(&two), Some(Ordering::Less));
    assert_eq!(two.partial_cmp(&one), Some(Ordering::Greater));
    assert!(two > one);
    assert!(one <= two);
}
