use connect::clock::{millis_from_reading, unix_millis_now};
use connect::text::{chars_of, contains_text, same_text};

#[test]
fn text_helpers() {
    assert_eq!(chars_of("héllo"), vec!['h', 'é', 'l', 'l', 'o']);
    assert!(same_text("abc", "abc"));
    assert!(!same_text("abc", "abd"));
    assert!(!same_text("abc", "ab"));
    assert!(contains_text("xxh264_nvencyy", "h264_nvenc"));
    assert!(contains_text("abc", ""));
    assert!(contains_text("abc", "abc"));
    assert!(!contains_text("ab", "abc"));
    assert!(!contains_text("aab", "abb"));
}

#[test]
fn clock_readings() {
    assert_eq!(millis_from_reading(None), 0);
    assert_eq!(millis_from_reading(Some(1_700_000_000_123)), 1_700_000_000_123);
    assert_eq!(millis_from_reading(Some(u128::MAX)), -1);
    assert!(unix_millis_now() > 1_600_000_000_000);
}
