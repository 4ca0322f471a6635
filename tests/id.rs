use users_service::id::Id;

#[test]
fn creates_with_random_id() {
    assert_ne!(Id::new(), Id::from(0));
}

#[test]
fn creates_with_default() {
    assert_ne!(Id::default(), Id::from(0));
}

#[test]
fn into_u64() {
    let value: u64 = Id::new().into();
    assert_ne!(value, 0);
}

#[test]
fn from_and_into_u64_round_trip() {
    let value: u64 = Id::from(42).into();
    assert_eq!(value, 42);
    assert_eq!(Id::from(7), Id(7));
}

#[test]
fn clock_readings_become_non_zero_ids() {
    assert_eq!(Id::from_clock_reading(Some(1_700_000_000_123_456_789)), Id(1_700_000_000_123_456_789));
    assert_eq!(Id::from_clock_reading(Some(0)), Id(1));
    assert_eq!(Id::from_clock_reading(Some(1u128 << 64)), Id(1));
    assert_eq!(Id::from_clock_reading(Some((1u128 << 64) + 5)), Id(5));
    assert_eq!(Id::from_clock_reading(None), Id(1));
}
