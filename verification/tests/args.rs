use stack_shield::args::{
    set_log_level, validate_target, validate_test_channel, validate_tss, LogLevel,
};

#[test]
fn tss_accepts_0_to_7() {
    for v in 0..8u8 {
        assert_eq!(validate_tss(&format!("{}", v)), Ok(()));
    }
    assert_eq!(validate_tss("+3"), Ok(()));
    assert_eq!(validate_tss("007"), Ok(()));
}

#[test]
fn tss_rejects_numbers_above_7() {
    let msg = Err("TSS not in valid range 0 - 7".to_string());
    assert_eq!(validate_tss("8"), msg);
    assert_eq!(validate_tss("255"), msg);
    assert_eq!(validate_tss("+100"), msg);
}

#[test]
fn tss_rejects_what_is_no_number() {
    assert_eq!(validate_tss(""), Err("cannot parse integer from empty string".to_string()));
    assert_eq!(validate_tss("abc"), Err("invalid digit found in string".to_string()));
    assert_eq!(validate_tss("-1"), Err("invalid digit found in string".to_string()));
    assert_eq!(validate_tss("+"), Err("invalid digit found in string".to_string()));
    assert_eq!(validate_tss(" 1"), Err("invalid digit found in string".to_string()));
    assert_eq!(validate_tss("1_0"), Err("invalid digit found in string".to_string()));
    assert_eq!(validate_tss("256"), Err("number too large to fit in target type".to_string()));
}

#[test]
fn target_accepts_0_to_3() {
    for v in 0..4u8 {
        assert_eq!(validate_target(&format!("{}", v)), Ok(()));
    }
    let msg = Err("Target not in valid range 0 - 3".to_string());
    assert_eq!(validate_target("4"), msg);
    assert_eq!(validate_target("7"), msg);
    assert!(validate_target("x").is_err());
    assert!(validate_target("300").is_err());
    assert_ne!(validate_target("300"), msg);
}

#[test]
fn test_channel_accepts_0_to_3() {
    for v in 0..4u8 {
        assert_eq!(validate_test_channel(&format!("{}", v)), Ok(()));
    }
    let msg = Err("Test channel not in valid range 0 - 3".to_string());
    assert_eq!(validate_test_channel("4"), msg);
    assert_eq!(validate_test_channel("99"), msg);
    assert!(validate_test_channel("").is_err());
    assert!(validate_test_channel("3.0").is_err());
}

#[test]
fn log_level_defaults_to_error() {
    assert_eq!(set_log_level(&None), LogLevel::Error);
    assert_eq!(set_log_level(&Some(LogLevel::Error)), LogLevel::Error);
    assert_eq!(set_log_level(&Some(LogLevel::Warn)), LogLevel::Warn);
    assert_eq!(set_log_level(&Some(LogLevel::Info)), LogLevel::Info);
    assert_eq!(set_log_level(&Some(LogLevel::Debug)), LogLevel::Debug);
    assert_eq!(set_log_level(&Some(LogLevel::Trace)), LogLevel::Trace);
}
