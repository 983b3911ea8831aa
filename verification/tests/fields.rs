use form_engine::error::FormError;
use form_engine::numeric::numeric_keystroke_allowed;
use form_engine::numeric::parse_unsigned;
use form_engine::signal::default_signal;
use form_engine::signal::FieldConfig;
use form_engine::signal::FieldKind;
use form_engine::signal::FieldSignal;
use form_engine::signal::FieldValue;

fn required(kind: FieldKind) -> FieldConfig {
    FieldConfig { kind, optional: false }
}

fn optional(kind: FieldKind) -> FieldConfig {
    FieldConfig { kind, optional: true }
}

fn unsigned(min: u64, max: u64) -> FieldKind {
    FieldKind::Unsigned { min, max }
}

#[test]
fn round_trip_unsigned() {
    let cfg = required(unsigned(0, 150));
    let sig = FieldValue::Unsigned(25).into_signal(&cfg, None);
    assert_eq!(sig.value, "25");
    assert_eq!(sig.try_from_signal(&cfg), Ok(FieldValue::Unsigned(25)));
}

#[test]
fn round_trip_text() {
    let cfg = required(FieldKind::Text);
    let sig = FieldValue::Text(String::from("hello")).into_signal(&cfg, None);
    assert_eq!(sig.value, "hello");
    assert_eq!(
        sig.try_from_signal(&cfg),
        Ok(FieldValue::Text(String::from("hello")))
    );
}

#[test]
fn typing_never_sets_error() {
    let cfg = required(unsigned(0, 150));
    let mut sig = FieldSignal::new_with_default_value(None);
    sig.set_value(String::from("-5"));
    assert_eq!(sig.error, None);
    sig.set_value(String::from("not a number"));
    assert_eq!(sig.error, None);
    let _ = cfg;
}

#[test]
fn commit_invalid_then_valid() {
    let cfg = required(unsigned(0, 150));
    let mut sig = FieldSignal::new_with_default_value(None);
    sig.set_value(String::from("-5"));
    sig.commit(&cfg);
    assert_eq!(sig.error, Some(FormError::Parse));
    sig.set_value(String::from("25"));
    sig.commit(&cfg);
    assert_eq!(sig.error, None);
    assert_eq!(sig.try_from_signal(&cfg), Ok(FieldValue::Unsigned(25)));
}

#[test]
fn commit_out_of_range_sets_error() {
    let cfg = required(unsigned(10, 100));
    let mut sig = FieldSignal::new_with_default_value(None);
    sig.set_value(String::from("250"));
    sig.commit(&cfg);
    assert_eq!(sig.error, Some(FormError::OutOfRange));
    sig.set_value(String::from("5"));
    sig.commit(&cfg);
    assert_eq!(sig.error, Some(FormError::OutOfRange));
}

#[test]
fn optional_default_commit_clears_error() {
    let cfg = optional(unsigned(0, 150));
    let mut sig = FieldSignal::new_with_default_value(None);
    sig.set_value(String::from("oops"));
    sig.commit(&cfg);
    assert_eq!(sig.error, Some(FormError::Parse));
    sig.set_value(String::new());
    sig.commit(&cfg);
    assert_eq!(sig.error, None);
}

#[test]
fn optional_empty_text_commit_has_no_error() {
    let cfg = optional(FieldKind::Text);
    let mut sig = FieldSignal::new_with_default_value(None);
    sig.set_value(String::new());
    sig.commit(&cfg);
    assert_eq!(sig.error, None);
}

#[test]
fn required_empty_is_parse_error() {
    let cfg = required(unsigned(0, 150));
    let sig = FieldSignal::new_with_default_value(None);
    assert_eq!(sig.try_from_signal(&cfg), Err(FormError::Parse));
}

#[test]
fn is_default_value_is_emptiness() {
    let mut sig = FieldSignal::new_with_default_value(None);
    assert!(sig.is_default_value());
    sig.set_value(String::from("x"));
    assert!(!sig.is_default_value());
}

#[test]
fn reset_rebases_dirtiness() {
    let mut sig = FieldSignal::new(String::from("old"), Some(String::from("old")));
    assert!(!sig.is_dirty());
    sig.set_value(String::from("new"));
    assert!(sig.is_dirty());
    sig.reset_initial_value();
    assert!(!sig.is_dirty());
    sig.set_value(String::from("old"));
    assert!(sig.is_dirty());
}

#[test]
fn untracked_error_read_is_idempotent() {
    let cfg = required(unsigned(0, 9));
    let mut sig = FieldSignal::new_with_default_value(None);
    sig.set_value(String::from("42"));
    sig.commit(&cfg);
    let first = sig.with_error(|e| e);
    let second = sig.with_error(|e| e);
    assert_eq!(first, second);
    assert_eq!(first, Some(FormError::OutOfRange));
}

#[test]
fn into_signal_keeps_explicit_baseline() {
    let cfg = required(unsigned(0, 150));
    let sig = FieldValue::Unsigned(7).into_signal(&cfg, Some(FieldValue::Unsigned(9)));
    assert_eq!(sig.value, "7");
    assert_eq!(sig.initial, Some(String::from("9")));
    assert_eq!(sig.error, None);
}

#[test]
fn default_signal_starts_empty() {
    let cfg = required(unsigned(0, 150));
    let sig = default_signal(&cfg, Some(FieldValue::Unsigned(12)));
    assert_eq!(sig.value, "");
    assert_eq!(sig.initial, Some(String::from("12")));
}

#[test]
fn leaf_recurse_visits_one_cell() {
    let sig = FieldSignal::new_with_default_value(None);
    assert_eq!(sig.recurse(), 1);
}

#[test]
fn parse_accepts_bounds_and_leading_zeros() {
    assert_eq!(parse_unsigned("0025", 0, u64::MAX), Ok(25));
    assert_eq!(parse_unsigned("0", 0, u64::MAX), Ok(0));
    assert_eq!(parse_unsigned("18446744073709551615", 0, u64::MAX), Ok(u64::MAX));
}

#[test]
fn parse_rejects_bad_text_and_overflow() {
    assert_eq!(parse_unsigned("", 0, u64::MAX), Err(FormError::Parse));
    assert_eq!(parse_unsigned("12a", 0, u64::MAX), Err(FormError::Parse));
    assert_eq!(parse_unsigned("+7", 0, u64::MAX), Err(FormError::Parse));
    assert_eq!(
        parse_unsigned("18446744073709551616", 0, u64::MAX),
        Err(FormError::OutOfRange)
    );
}

#[test]
fn round_trip_signed() {
    let cfg = required(FieldKind::Signed { min: i64::MIN, max: i64::MAX });
    let sig = FieldValue::Signed(-40).into_signal(&cfg, None);
    assert_eq!(sig.value, "-40");
    assert_eq!(sig.try_from_signal(&cfg), Ok(FieldValue::Signed(-40)));

    let sig = FieldValue::Signed(i64::MIN).into_signal(&cfg, None);
    assert_eq!(sig.value, "-9223372036854775808");
    assert_eq!(sig.try_from_signal(&cfg), Ok(FieldValue::Signed(i64::MIN)));

    let sig = FieldValue::Signed(i64::MAX).into_signal(&cfg, None);
    assert_eq!(sig.try_from_signal(&cfg), Ok(FieldValue::Signed(i64::MAX)));
}

#[test]
fn signed_commit_bounds_and_bad_text() {
    let cfg = required(FieldKind::Signed { min: -10, max: 10 });
    let mut sig = FieldSignal::new_with_default_value(None);
    sig.set_value(String::from("-5"));
    sig.commit(&cfg);
    assert_eq!(sig.error, None);
    assert_eq!(sig.try_from_signal(&cfg), Ok(FieldValue::Signed(-5)));

    sig.set_value(String::from("-11"));
    sig.commit(&cfg);
    assert_eq!(sig.error, Some(FormError::OutOfRange));

    sig.set_value(String::from("-"));
    sig.commit(&cfg);
    assert_eq!(sig.error, Some(FormError::Parse));

    sig.set_value(String::from("-0"));
    sig.commit(&cfg);
    assert_eq!(sig.error, None);
    assert_eq!(sig.try_from_signal(&cfg), Ok(FieldValue::Signed(0)));
}

#[test]
fn numeric_keystrokes() {
    for c in ['0', '5', '9', '.', '-', '+'] {
        assert!(numeric_keystroke_allowed(c));
    }
    for c in ['a', ' ', ',', 'e'] {
        assert!(!numeric_keystroke_allowed(c));
    }
}

#[test]
fn error_messages() {
    assert_eq!(FormError::Parse.message(), "not a valid value");
    assert_eq!(FormError::OutOfRange.message(), "value out of range");
}
