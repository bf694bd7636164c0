use warden_vault::text::{decimal_text, join2, join3};

#[test]
fn decimal_text_writes_numerals() {
    assert_eq!(decimal_text(0), "0");
    assert_eq!(decimal_text(7), "7");
    assert_eq!(decimal_text(9), "9");
    assert_eq!(decimal_text(10), "10");
    assert_eq!(decimal_text(401), "401");
    assert_eq!(decimal_text(65535), "65535");
    assert_eq!(decimal_text(1234567890), "1234567890");
    assert_eq!(decimal_text(u64::MAX), "18446744073709551615");
}

#[test]
fn decimal_text_agrees_with_std() {
    for n in (0u64..3000).chain([99_999, 100_000, 100_001, u64::MAX - 1]) {
        assert_eq!(decimal_text(n), n.to_string());
    }
}

#[test]
fn joins_concatenate_in_order() {
    assert_eq!(join2("ab", "cd"), "abcd");
    assert_eq!(join2("", ""), "");
    assert_eq!(join2("é", "中"), "é中");
    assert_eq!(join3("a", "", "c"), "ac");
    assert_eq!(join3("warden_backup_", "x", ".json"), "warden_backup_x.json");
}
