use rangetype::{RangeError, RangeType};

#[test]
fn display_form_shows_the_payload_only() {
    assert_eq!(RangeType::new(96, 0..127).to_string(), "96");
    assert_eq!(RangeType::new(-4, -10..10).to_string(), "-4");
    assert_eq!(RangeType::new(4.5, 0.1..99.9).to_string(), "4.5");
}

#[test]
fn debug_form_shows_the_payload_only() {
    assert_eq!(RangeType::new(1, 0..10).to_debug_string(), "1");
    assert_eq!(RangeType::new(96, 0..127).to_debug_string(), "96");
    assert_eq!(RangeType::new("b", "a".."c").to_debug_string(), "\"b\"");
    assert_eq!(RangeType::new(4.5, 0.1..99.9).to_debug_string(), "4.5");
}

#[test]
fn message_of_a_range_violation() {
    let e = RangeType::try_new(11, 0..10).err().unwrap();
    assert_eq!(e.message(), "11 is not in the range 0..10");
    let e = RangeType::try_new(-0.5, 0.0..1.5).err().unwrap();
    assert_eq!(e.message(), "-0.5 is not in the range 0..1.5");
}

#[test]
fn message_of_a_mismatch() {
    let e = RangeType::new(1, 0..1).try_add(RangeType::new(1, 0..2)).err().unwrap();
    assert_eq!(e, RangeError::UnequalRanges);
    assert_eq!(e.message(), "Ranges are unequal");
}
