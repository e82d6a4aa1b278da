use dxf2elmt::normalize::{
    byte_is_alphabetic, byte_is_code, find_text_start, normalize_bytes, normalize_mtext,
};

#[test]
fn line_break_and_space_escapes() {
    assert_eq!(normalize_mtext("A\\Ptext\\~B"), "A\ntext B");
}

#[test]
fn unterminated_code_is_kept() {
    let out = normalize_mtext("\\Xabc");
    assert!(out.contains("\\Xabc"));
    assert_eq!(out, "\\Xabc");
}

#[test]
fn unterminated_code_before_other_text_is_kept() {
    assert_eq!(normalize_mtext("\\Xab!c"), "\\Xab!c");
    assert_eq!(normalize_mtext("a\\Xab\\Pc"), "a\\Xab\nc");
}

#[test]
fn terminated_code_is_dropped() {
    assert_eq!(normalize_mtext("x;\\W0.82571;Hi"), "Hi");
    assert_eq!(normalize_mtext(";a\\H2.5;b\\fArial|b0|i0;c"), "abc");
}

#[test]
fn everything_up_to_first_semicolon_is_dropped() {
    assert_eq!(normalize_mtext("abc;def"), "def");
    assert_eq!(normalize_mtext("{\\fGaramond|b0|i1|c2|p18;Sofrel}"), "Sofrel");
    assert_eq!(normalize_mtext("abc;"), "");
    assert_eq!(find_text_start(b"abc;def;g"), 4);
    assert_eq!(find_text_start(b"abcdef"), 0);
    assert_eq!(find_text_start(b""), 0);
}

#[test]
fn text_without_semicolon_is_processed_whole() {
    assert_eq!(normalize_mtext("Hello"), "Hello");
    assert_eq!(normalize_mtext("{He}llo\\~you"), "Hello you");
}

#[test]
fn braces_are_dropped() {
    assert_eq!(normalize_mtext("{a{b}c}"), "abc");
    assert_eq!(normalize_mtext("{}"), "");
}

#[test]
fn escaped_backslash_gives_one() {
    assert_eq!(normalize_mtext("a\\\\b"), "a\\b");
    assert_eq!(normalize_mtext("\\\\P"), "\\P");
}

#[test]
fn lone_backslash_is_kept() {
    assert_eq!(normalize_mtext("a\\"), "a\\");
    assert_eq!(normalize_mtext("a\\1b"), "a\\1b");
    assert_eq!(normalize_mtext("\\{x"), "\\x");
}

#[test]
fn empty_text_stays_empty() {
    assert_eq!(normalize_mtext(""), "");
    assert_eq!(normalize_bytes(b""), Vec::<u8>::new());
}

#[test]
fn normalizing_twice_changes_nothing_more() {
    for s in ["A\\Ptext\\~B", "x;\\W0.8;Hi {there}", "Hello", "{\\fArial|b1;Bold}"] {
        let once = normalize_mtext(s);
        assert!(!once.contains(['\\', ';', '{', '}']));
        assert_eq!(normalize_mtext(&once), once);
    }
}

#[test]
fn each_byte_becomes_one_character() {
    assert_eq!(normalize_mtext("é"), "\u{c3}\u{a9}");
    assert_eq!(normalize_bytes("é".as_bytes()), vec![0xc3u8, 0xa9u8]);
}

#[test]
fn letter_after_backslash_may_be_any_letter_byte() {
    assert_eq!(normalize_bytes(&[0x5c, 0xc3, 0x41, 0x3b, 0x42]), vec![0x42u8]);
    assert_eq!(normalize_bytes(&[0x5c, 0xd7, 0x41]), vec![0x5cu8, 0xd7, 0x41]);
}

#[test]
fn letters_are_the_alphabetic_characters() {
    for b in 0u8..=255 {
        assert_eq!(byte_is_alphabetic(b), (b as char).is_alphabetic(), "byte {}", b);
    }
}

#[test]
fn code_bytes_are_alphanumerics_and_five_more() {
    for b in 0u8..=255 {
        let expected = b.is_ascii_alphanumeric() || b"-_| .".contains(&b);
        assert_eq!(byte_is_code(b), expected, "byte {}", b);
    }
}
