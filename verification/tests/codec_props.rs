use winefi::codec::{format_bottle_id, u32_to_string, MAX_BOTTLE_ID_LEN};
use winefi::errors::BottleFactoryError;

#[test]
fn padded_to_four_digits_below_ten_thousand() {
    let lot = String::from("LOT1");
    assert_eq!(format_bottle_id(&lot, 0).unwrap(), "LOT1-0000");
    assert_eq!(format_bottle_id(&lot, 1).unwrap(), "LOT1-0001");
    assert_eq!(format_bottle_id(&lot, 42).unwrap(), "LOT1-0042");
    assert_eq!(format_bottle_id(&lot, 999).unwrap(), "LOT1-0999");
    assert_eq!(format_bottle_id(&lot, 9999).unwrap(), "LOT1-9999");
    for n in [0u32, 1, 9, 10, 99, 100, 999, 1000, 9999] {
        let id = format_bottle_id(&lot, n).unwrap();
        assert_eq!(id.chars().count(), lot.chars().count() + 1 + 4);
    }
}

#[test]
fn no_truncation_at_or_above_ten_thousand() {
    let lot = String::from("LOT1");
    assert_eq!(format_bottle_id(&lot, 10000).unwrap(), "LOT1-10000");
    assert_eq!(format_bottle_id(&lot, 123456).unwrap(), "LOT1-123456");
    assert_eq!(format_bottle_id(&lot, u32::MAX).unwrap(), "LOT1-4294967295");
}

#[test]
fn decimal_digits_are_exact() {
    assert_eq!(u32_to_string(0), "0");
    assert_eq!(u32_to_string(7), "7");
    assert_eq!(u32_to_string(10), "10");
    assert_eq!(u32_to_string(305), "305");
    assert_eq!(u32_to_string(u32::MAX), "4294967295");
}

#[test]
fn oversized_identifier_is_refused_not_truncated() {
    // lot length + 1 + 4 must stay within the bound.
    let fits: String = "L".repeat(MAX_BOTTLE_ID_LEN - 5);
    let id = format_bottle_id(&fits, 1).unwrap();
    assert_eq!(id.chars().count(), MAX_BOTTLE_ID_LEN);

    let too_long: String = "L".repeat(MAX_BOTTLE_ID_LEN - 4);
    assert_eq!(
        format_bottle_id(&too_long, 1).unwrap_err(),
        BottleFactoryError::InvalidInput
    );
}
