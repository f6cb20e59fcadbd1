use hermes_dms::text::{
    decimal_text, is_blank, push_hex, strip_trailing, take_chars, to_ascii_lowercase, trim,
};

#[test]
fn numbers_in_decimal() {
    assert_eq!(decimal_text(0), "0");
    assert_eq!(decimal_text(9), "9");
    assert_eq!(decimal_text(10), "10");
    assert_eq!(decimal_text(u64::MAX), u64::MAX.to_string());
}

#[test]
fn bytes_in_hex() {
    let mut s = String::from("x");
    push_hex(&mut s, 0x0a);
    push_hex(&mut s, 0xff);
    assert_eq!(s, "x0aff");
}

#[test]
fn white_space_is_trimmed() {
    assert_eq!(trim(" \t a b \u{3000}\n"), "a b");
    assert_eq!(trim(""), "");
    assert_eq!(trim(" \n"), "");
    assert_eq!(trim("\u{200b}x"), "\u{200b}x");
    assert!(is_blank("\u{85}\u{1680}\u{2028}\u{2029}\u{202f}\u{205f}"));
    assert!(!is_blank("\u{200b}"));
}

/// Every character counts as white space here just when it does in the
/// standard library.
#[test]
fn white_space_agrees_for_every_character() {
    for c in char::MIN..=char::MAX {
        assert_eq!(is_blank(&c.to_string()), c.is_whitespace());
    }
}

#[test]
fn slashes_are_stripped() {
    assert_eq!(strip_trailing("a/b//", '/'), "a/b");
    assert_eq!(strip_trailing("a/b", '/'), "a/b");
    assert_eq!(strip_trailing("///", '/'), "");
}

#[test]
fn characters_are_taken_whole() {
    assert_eq!(take_chars("éàü", 2), "éà");
    assert_eq!(take_chars("éàü", 3), "éàü");
    assert_eq!(take_chars("éàü", 9), "éàü");
    assert_eq!(take_chars("éàü", 0), "");
}

#[test]
fn ascii_letters_are_lowered() {
    assert_eq!(to_ascii_lowercase("AZaz[@ÉĞ"), "azaz[@ÉĞ");
}
