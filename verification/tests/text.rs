use memkv::text::{
    ascii_space, chars_of, eq_ignore_ascii_case, lower_code, trim, trim_bounds, unicode_space,
};

#[test]
fn ascii_space_is_the_five_separators() {
    for c in [' ', '\t', '\n', '\x0C', '\r'] {
        assert!(ascii_space(c));
    }
    for c in ['\x0B', 'a', '0', '\0', '\u{a0}', '\u{2003}', '\u{85}'] {
        assert!(!ascii_space(c));
    }
}

#[test]
fn unicode_space_agrees_with_the_standard_library() {
    for code in 0u32..0x3100 {
        if let Some(c) = char::from_u32(code) {
            assert_eq!(unicode_space(c), c.is_whitespace(), "U+{:04X}", code);
        }
    }
    assert!(!unicode_space('\u{10FFFF}'));
    assert!(!unicode_space('\u{FEFF}'));
}

#[test]
fn lower_code_folds_only_ascii_capitals() {
    assert_eq!(lower_code('A'), 'a' as u32);
    assert_eq!(lower_code('Z'), 'z' as u32);
    assert_eq!(lower_code('a'), 'a' as u32);
    assert_eq!(lower_code('@'), '@' as u32);
    assert_eq!(lower_code('['), '[' as u32);
    assert_eq!(lower_code('É'), 'É' as u32);
    assert_eq!(lower_code('5'), '5' as u32);
}

#[test]
fn chars_of_lists_the_characters() {
    assert_eq!(chars_of(""), Vec::<char>::new());
    assert_eq!(chars_of("añ€😀"), vec!['a', 'ñ', '€', '😀']);
}

#[test]
fn eq_ignore_ascii_case_folds_letters_only() {
    assert!(eq_ignore_ascii_case("set", "SET"));
    assert!(eq_ignore_ascii_case("SeT", "sEt"));
    assert!(eq_ignore_ascii_case("", ""));
    assert!(eq_ignore_ascii_case("noreply", "NoReply"));
    assert!(!eq_ignore_ascii_case("set", "get"));
    assert!(!eq_ignore_ascii_case("set", "sets"));
    assert!(!eq_ignore_ascii_case("set", ""));
    assert!(!eq_ignore_ascii_case("é", "É"));
    assert!(eq_ignore_ascii_case("é", "é"));
    assert!(!eq_ignore_ascii_case("@", "`"));
    assert!(!eq_ignore_ascii_case("[", "{"));
}

#[test]
fn eq_ignore_ascii_case_agrees_with_the_standard_library() {
    let samples = ["", "a", "A", "set", "SET", "sEt", "get", "replace", "REPLACE", "é", "É", "@", "`", "-p", "-P"];
    for a in samples {
        for b in samples {
            assert_eq!(eq_ignore_ascii_case(a, b), a.eq_ignore_ascii_case(b), "{:?} {:?}", a, b);
        }
    }
}

#[test]
fn trim_takes_white_space_off_both_ends() {
    assert_eq!(trim("  a b  "), "a b");
    assert_eq!(trim("\t\r\nget k\r\n"), "get k");
    assert_eq!(trim("\u{a0}x\u{2003}"), "x");
    assert_eq!(trim("\x0Bx\x0B"), "x");
    assert_eq!(trim("x"), "x");
    assert_eq!(trim(""), "");
    assert_eq!(trim(" \t\r\n"), "");
    assert_eq!(trim("é ü"), "é ü");
}

#[test]
fn trim_agrees_with_the_standard_library() {
    for text in ["", " ", "a", " a", "a ", " a b ", "\r\n", "\u{3000}a\u{1680}", "a\u{200B}", "\u{85}a"] {
        assert_eq!(trim(text), text.trim(), "{:?}", text);
    }
}

#[test]
fn trim_bounds_mark_the_kept_part() {
    assert_eq!(trim_bounds(&chars_of("  ab ")), (2, 4));
    assert_eq!(trim_bounds(&chars_of("ab")), (0, 2));
    assert_eq!(trim_bounds(&chars_of("   ")), (3, 3));
    assert_eq!(trim_bounds(&chars_of("")), (0, 0));
}
