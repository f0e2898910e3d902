use stocks_api::text::{append_decimal, contains_str};

#[test]
fn decimal_rendering() {
    let mut s = String::from("id=");
    append_decimal(&mut s, 0);
    assert_eq!(s, "id=0");
    let mut s = String::new();
    append_decimal(&mut s, 1234567);
    assert_eq!(s, "1234567");
    let mut s = String::new();
    append_decimal(&mut s, -10);
    assert_eq!(s, "-10");
    let mut s = String::new();
    append_decimal(&mut s, i32::MAX);
    assert_eq!(s, "2147483647");
}

#[test]
fn substring_search() {
    assert!(contains_str("abc foreign key constraint x", "foreign key constraint"));
    assert!(contains_str("abc", ""));
    assert!(contains_str("référencé", "éfé"));
    assert!(!contains_str("foreign key", "foreign key constraint"));
    assert!(!contains_str("", "a"));
}
