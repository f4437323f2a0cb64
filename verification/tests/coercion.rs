use gpio2mqtt::data::{coerce, CoercionError, HighLowToggle, RawValue};

#[test]
fn test_serde_high_low_toggle2() {
    assert_eq!(coerce(&RawValue::Str("high".to_string())).unwrap(), HighLowToggle::High);
    assert_eq!(coerce(&RawValue::Str("on".to_string())).unwrap(), HighLowToggle::High);
    assert_eq!(coerce(&RawValue::Str("1".to_string())).unwrap(), HighLowToggle::High);
    assert_eq!(coerce(&RawValue::Number(Some(1))).unwrap(), HighLowToggle::High);
    assert_eq!(coerce(&RawValue::Str("low".to_string())).unwrap(), HighLowToggle::Low);
    assert_eq!(coerce(&RawValue::Str("off".to_string())).unwrap(), HighLowToggle::Low);
    assert_eq!(coerce(&RawValue::Str("0".to_string())).unwrap(), HighLowToggle::Low);
    assert_eq!(coerce(&RawValue::Number(Some(0))).unwrap(), HighLowToggle::Low);
    assert_eq!(coerce(&RawValue::Str("toggle".to_string())).unwrap(), HighLowToggle::Toggle);
    assert!(coerce(&RawValue::Number(Some(3))).is_err());
    assert!(coerce(&RawValue::Str("bad".to_string())).is_err());
}

#[test]
fn test_coerce_booleans() {
    assert_eq!(coerce(&RawValue::Bool(true)).unwrap(), HighLowToggle::High);
    assert_eq!(coerce(&RawValue::Bool(false)).unwrap(), HighLowToggle::Low);
}

#[test]
fn test_coerce_errors_exact() {
    assert_eq!(coerce(&RawValue::Number(Some(7))).unwrap_err(), CoercionError::UnsupportedNumber);
    assert_eq!(coerce(&RawValue::Number(Some(-1))).unwrap_err(), CoercionError::UnsupportedNumber);
    assert_eq!(coerce(&RawValue::Number(None)).unwrap_err(), CoercionError::UnsupportedNumber);
    assert_eq!(coerce(&RawValue::Str("On".to_string())).unwrap_err(), CoercionError::UnknownString);
    assert_eq!(coerce(&RawValue::Str("".to_string())).unwrap_err(), CoercionError::UnknownString);
    assert_eq!(coerce(&RawValue::Other).unwrap_err(), CoercionError::UnsupportedType);
}
