use akurai_monitor::text::{
    begins_with, decimal_text, join, same_text, signed_decimal_text, trim_trailing, until_mark,
    without_prefix,
};

#[test]
fn writes_numerals() {
    assert_eq!(decimal_text(0), "0");
    assert_eq!(decimal_text(10), "10");
    assert_eq!(decimal_text(u64::MAX), "18446744073709551615");
    assert_eq!(signed_decimal_text(-1), "-1");
    assert_eq!(signed_decimal_text(i64::MIN), "-9223372036854775808");
    assert_eq!(signed_decimal_text(i64::MAX), "9223372036854775807");
}

#[test]
fn cuts_and_joins_texts() {
    assert!(same_text("ö", "ö") && !same_text("ö", "o") && !same_text("a", "aa"));
    assert!(begins_with("https://x", "https://") && !begins_with("http", "https://"));
    assert_eq!(without_prefix("Bearer ö", "Bearer "), Some("ö".to_string()));
    assert_eq!(without_prefix("bearer x", "Bearer "), None);
    assert_eq!(until_mark("a=1; Path=/", ';'), "a=1");
    assert_eq!(until_mark("a=1", ';'), "a=1");
    assert_eq!(until_mark(";", ';'), "");
    assert_eq!(trim_trailing("http://a//", '/'), "http://a");
    assert_eq!(trim_trailing("///", '/'), "");
    let parts = vec!["a".to_string(), String::new(), "b".to_string()];
    assert_eq!(join(&parts, ", "), "a, , b");
    assert_eq!(join(&Vec::new(), ", "), "");
}
