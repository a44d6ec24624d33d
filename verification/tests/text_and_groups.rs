use furtherance::group::{group_text_update, strip_hash};
use furtherance::text::{char_is_whitespace, i64_to_decimal, trim, u64_to_decimal};

#[test]
fn trim_examples() {
    assert_eq!(trim("  a b \t\n"), "a b");
    assert_eq!(trim(""), "");
    assert_eq!(trim("   "), "");
    assert_eq!(trim("x"), "x");
    assert_eq!(trim("\u{3000}wide\u{2003}"), "wide");
}

#[test]
fn trim_matches_std() {
    for s in ["", " ", " a", "a ", " a b ", "\t\r\nx y\u{a0}", "\u{85}z"] {
        assert_eq!(trim(s), s.trim());
    }
}

#[test]
fn trim_is_idempotent() {
    for s in ["  a  ", "b", "   ", " c d "] {
        assert_eq!(trim(trim(s)), trim(s));
    }
}

#[test]
fn strip_hash_examples() {
    assert_eq!(strip_hash("#tag"), Some("tag"));
    assert_eq!(strip_hash("#"), Some(""));
    assert_eq!(strip_hash("tag"), None);
    assert_eq!(strip_hash(""), None);
    assert_eq!(strip_hash(" #tag"), None);
}

#[test]
fn decimal_unsigned() {
    assert_eq!(u64_to_decimal(0), "0");
    assert_eq!(u64_to_decimal(9), "9");
    assert_eq!(u64_to_decimal(10), "10");
    assert_eq!(u64_to_decimal(1234567890), "1234567890");
    assert_eq!(u64_to_decimal(u64::MAX), u64::MAX.to_string());
}

#[test]
fn decimal_signed() {
    assert_eq!(i64_to_decimal(0), "0");
    assert_eq!(i64_to_decimal(-5), "-5");
    assert_eq!(i64_to_decimal(42), "42");
    assert_eq!(i64_to_decimal(i64::MIN), i64::MIN.to_string());
    assert_eq!(i64_to_decimal(i64::MAX), i64::MAX.to_string());
}

#[test]
fn group_update_with_hash_tags() {
    let u = group_text_update("  Write report ", " #work #urgent ", "#old", " Acme ", " 12.5 ");
    assert_eq!(u.name, "Write report");
    assert_eq!(u.tags, "work #urgent");
    assert_eq!(u.project, "Acme");
    assert_eq!(u.rate_text, "12.5");
}

#[test]
fn group_update_without_hash_keeps_current_tags() {
    let u = group_text_update("Task", "work", "  #old tags  ", "", "");
    assert_eq!(u.tags, "#old tags");
    assert_eq!(u.project, "");
    assert_eq!(u.rate_text, "");
}

#[test]
fn group_update_hash_then_space() {
    let u = group_text_update("n", "#  spaced ", "x", "p", "1");
    assert_eq!(u.tags, "spaced");
}

#[test]
fn group_update_empty_tags_use_current() {
    let u = group_text_update("n", "   ", " current ", "p", "1");
    assert_eq!(u.tags, "current");
}

#[test]
fn whitespace_agrees_with_std_on_every_char() {
    for v in 0u32..=0x10FFFF {
        if let Some(c) = char::from_u32(v) {
            assert_eq!(char_is_whitespace(c), c.is_whitespace(), "U+{:04X}", v);
        }
    }
}
