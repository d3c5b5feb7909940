use rustyroad::text::{contains_str, lex_le_str, parse_decimal, trim};

#[test]
fn trims_blanks_at_both_ends() {
    assert_eq!(trim("  a b \t\r\n"), "a b");
    assert_eq!(trim("   "), "");
    assert_eq!(trim(""), "");
    assert_eq!(trim("\u{a0}y\u{3000}"), "y");
    assert_eq!(trim("\u{2003}12\u{85}"), "12");
}

#[test]
fn parses_unsigned_decimals() {
    assert_eq!(parse_decimal("0042"), Some(42));
    assert_eq!(parse_decimal("18446744073709551615"), Some(u64::MAX));
    assert_eq!(parse_decimal("18446744073709551616"), None);
    assert_eq!(parse_decimal("-1"), None);
    assert_eq!(parse_decimal(""), None);
    assert_eq!(parse_decimal("1x"), None);
}

#[test]
fn substring_search() {
    assert!(contains_str("20240101120000-create_users", "users"));
    assert!(contains_str("abc", ""));
    assert!(!contains_str("use", "users"));
    assert!(!contains_str("20240101120000-posts", "users"));
}

#[test]
fn lexicographic_order() {
    assert!(lex_le_str("down.sql", "up.sql"));
    assert!(!lex_le_str("up.sql", "down.sql"));
    assert!(lex_le_str("a", "ab"));
    assert!(lex_le_str("same", "same"));
    assert!(!lex_le_str("b", "a"));
}
