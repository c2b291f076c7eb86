use rangetype::{RangeError, RangeType};

#[test]
fn test_integer() {
    RangeType::new(1, 0..10);
}

#[test]
fn test_float() {
    RangeType::new(1.0, 0.0..10.0);
}

#[test]
fn new_keeps_value_and_bounds() {
    let x = RangeType::new(32, 0..127);
    assert_eq!(x.as_raw(), 32);
    assert_eq!(x.range(), 0..127);
}

#[test]
fn new_accepts_both_ends() {
    assert_eq!(RangeType::new(0, 0..10).as_raw(), 0);
    assert_eq!(RangeType::new(10, 0..10).as_raw(), 10);
    assert_eq!(RangeType::new(7u8, 7..7).as_raw(), 7);
}

#[test]
fn try_new_accepts_inside() {
    for v in 0..=10 {
        let r = RangeType::try_new(v, 0..10);
        assert!(r.is_ok());
        let x = r.ok().unwrap();
        assert_eq!(x.as_raw(), v);
        assert_eq!(x.range(), 0..10);
    }
}

#[test]
fn try_new_rejects_below_and_above() {
    assert_eq!(
        RangeType::try_new(-1, 0..10).err(),
        Some(RangeError::OutOfRange { val: -1, start: 0, end: 10 })
    );
    assert_eq!(
        RangeType::try_new(11, 0..10).err(),
        Some(RangeError::OutOfRange { val: 11, start: 0, end: 10 })
    );
}

#[test]
fn try_new_with_crossed_bounds_rejects_everything() {
    for v in -3..=8 {
        assert_eq!(
            RangeType::try_new(v, 5..0).err(),
            Some(RangeError::OutOfRange { val: v, start: 5, end: 0 })
        );
    }
}

#[test]
fn try_new_on_floats() {
    let x = RangeType::try_new(4.5, 0.1..99.9).ok().unwrap();
    assert_eq!(x.as_raw(), 4.5);
    assert_eq!(x.range(), 0.1..99.9);
    assert_eq!(
        RangeType::try_new(100.0, 0.1..99.9).err(),
        Some(RangeError::OutOfRange { val: 100.0, start: 0.1, end: 99.9 })
    );
}

#[test]
fn try_new_accepts_what_is_neither_below_nor_above() {
    // a NaN is not less than the lower bound and not greater than the upper
    let x = RangeType::try_new(f64::NAN, 0.0..1.0);
    assert!(x.is_ok());
    assert!(x.ok().unwrap().as_raw().is_nan());
}

#[test]
fn with_range_keeps_payload() {
    let x = RangeType::new(32, 0..127);
    let a = x.with_range(0..255);
    assert_eq!(a.as_raw(), 32);
    assert_eq!(a.range(), 0..255);
    // the source value is a copy and is unchanged
    assert_eq!(x.range(), 0..127);
}

#[test]
fn with_range_on_satisfied_bounds_is_idempotent() {
    let x = RangeType::new(5, 0..10);
    let once = x.try_with_range(5..5).ok().unwrap();
    let twice = once.try_with_range(5..5).ok().unwrap();
    assert!(once == twice);
    assert_eq!(twice.as_raw(), 5);
    assert_eq!(twice.range(), 5..5);
}

#[test]
fn try_with_range_rejects_payload_outside_new_bounds() {
    let x = RangeType::new(32, 0..127);
    assert_eq!(
        x.try_with_range(0..31).err(),
        Some(RangeError::OutOfRange { val: 32, start: 0, end: 31 })
    );
    assert_eq!(
        x.try_with_range(33..127).err(),
        Some(RangeError::OutOfRange { val: 32, start: 33, end: 127 })
    );
}

#[test]
fn with_range_round_trip() {
    let x = RangeType::new(3, 0..10);
    let there = x.try_with_range(3..4).ok().unwrap();
    let back = there.try_with_range(0..10).ok().unwrap();
    assert!(back == x);
    assert_eq!(back.as_raw(), 3);
    assert_eq!(back.range(), 0..10);
}

#[test]
fn clone_is_a_copy() {
    let x = RangeType::new(3, 0..10);
    let y = x.clone();
    assert!(x == y);
    assert_eq!(y.as_raw(), 3);
    assert_eq!(y.range(), 0..10);
}
