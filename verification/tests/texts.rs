//! Texts and tables.
use cockpit_codex::table::TextTable;
use cockpit_codex::text::{
    decimal_text, ends_with, join, non_blank, parse_u16, same_text, space_char, split_words,
    strip_prefix, to_lower, trim, trim_end, trim_start, CharClass,
};

#[test]
fn white_space_is_that_of_unicode() {
    for n in 0..=0x10ffff {
        if let Some(c) = char::from_u32(n) {
            assert_eq!(space_char(c), c.is_whitespace(), "{:x}", n);
        }
    }
}

#[test]
fn trimming_matches_the_standard_library() {
    for text in ["", " ", " a b ", "\u{3000}x\u{85}", "a", "\t\n"] {
        assert_eq!(trim(text, CharClass::Space), text.trim());
        assert_eq!(trim_start(text, CharClass::Space), text.trim_start());
        assert_eq!(trim_end(text, CharClass::Space), text.trim_end());
        let parts: Vec<&str> = text.split_whitespace().collect();
        assert_eq!(split_words(text), parts);
    }
    assert_eq!(trim("'\"a'b\"'", CharClass::Quote), "a'b");
    assert_eq!(trim_end("/a//", CharClass::Slash), "/a");
    assert_eq!(trim_end("//", CharClass::Slash), "");
}

#[test]
fn blank_texts_are_nothing() {
    assert_eq!(non_blank(None), None);
    assert_eq!(non_blank(Some(" \n")), None);
    assert_eq!(non_blank(Some(" a ")).as_deref(), Some("a"));
}

#[test]
fn numbers_are_written_and_read() {
    for n in [i64::MIN, -10, -1, 0, 7, 10, 99, 100, i64::MAX] {
        assert_eq!(decimal_text(n), n.to_string());
    }
    for text in ["", "+", "-0", "0", "+7", "++7", "065535", "65535", "65536", "99999999999999999999", "1a", "７"] {
        assert_eq!(parse_u16(text), text.parse::<u16>().ok(), "{}", text);
    }
}

#[test]
fn comparisons() {
    assert!(same_text("äa", "äa"));
    assert!(!same_text("a", "ab"));
    assert!(!same_text("a", "A"));
    assert_eq!(strip_prefix("abc", "ab"), Some("c"));
    assert_eq!(strip_prefix("abc", "b"), None);
    assert_eq!(strip_prefix("a", "ab"), None);
    assert!(ends_with("/v1", "/v1"));
    assert!(ends_with("a/v1", "/v1"));
    assert!(!ends_with("v1", "/v1"));
    assert_eq!(to_lower("AZaz[Ä"), "azaz[Ä");
}

#[test]
fn words_are_joined_by_one_space() {
    let words = |list: &[&str]| -> Vec<String> { list.iter().map(|w| w.to_string()).collect() };
    assert_eq!(join(&words(&[])), "");
    assert_eq!(join(&words(&["a"])), "a");
    assert_eq!(join(&words(&["a", "", "b"])), "a  b");
}

#[test]
fn tables_hold_one_value_per_key() {
    let mut table: TextTable<u32> = TextTable::new();
    assert_eq!(table.insert("a".to_string(), 1), None);
    assert_eq!(table.insert("b".to_string(), 2), None);
    assert_eq!(table.insert("a".to_string(), 3), Some(1));
    assert_eq!(table.get("a"), Some(&3));
    assert_eq!(table.get("c"), None);
    assert_eq!(table.remove("b"), Some(2));
    assert_eq!(table.remove("b"), None);
    table.insert("d".to_string(), 4);
    let mut values = table.take_all();
    values.sort();
    assert_eq!(values, vec![3, 4]);
    assert_eq!(table.get("a"), None);
}
