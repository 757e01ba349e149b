use gal_runtime::value::RawValue;

#[test]
fn get_str_of_each_kind() {
    assert_eq!(RawValue::Unit.get_str(), "");
    assert_eq!(RawValue::Bool(true).get_str(), "true");
    assert_eq!(RawValue::Bool(false).get_str(), "false");
    assert_eq!(RawValue::Num(0).get_str(), "0");
    assert_eq!(RawValue::Num(1205).get_str(), "1205");
    assert_eq!(RawValue::Num(-42).get_str(), "-42");
    assert_eq!(RawValue::Num(i64::MIN).get_str(), i64::MIN.to_string());
    assert_eq!(RawValue::Num(i64::MAX).get_str(), i64::MAX.to_string());
    assert_eq!(RawValue::Str("abc".to_string()).get_str(), "abc");
}

#[test]
fn get_bool_of_each_kind() {
    assert!(!RawValue::Unit.get_bool());
    assert!(RawValue::Bool(true).get_bool());
    assert!(!RawValue::Num(0).get_bool());
    assert!(RawValue::Num(-3).get_bool());
    assert!(!RawValue::Str(String::new()).get_bool());
    assert!(RawValue::Str("x".to_string()).get_bool());
}
