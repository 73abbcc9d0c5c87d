use tx_lifecycle::text::{blank, decimal, fill, fill2, fill3, is_yes, signed_decimal, str_equal};

#[test]
fn decimal_writes_numbers_as_std_does() {
    for n in [0u64, 1, 9, 10, 11, 99, 100, 101, 12345, 1_000_000, u32::MAX as u64, u64::MAX] {
        assert_eq!(decimal(n), n.to_string());
    }
    assert_eq!(decimal(0), "0");
    assert_eq!(decimal(7), "7");
    assert_eq!(decimal(120), "120");
    assert_eq!(decimal(u64::MAX), "18446744073709551615");
}

#[test]
fn signed_decimal_writes_the_sign() {
    for n in [0i64, 1, -1, 9, -9, 10, -10, 3, 1234567, -1234567, i64::MAX, i64::MIN, i64::MIN + 1] {
        assert_eq!(signed_decimal(n), n.to_string());
    }
    assert_eq!(signed_decimal(-42), "-42");
    assert_eq!(signed_decimal(i64::MIN), "-9223372036854775808");
}

#[test]
fn fill_puts_the_pieces_in_order() {
    assert_eq!(fill("a", "b", "c"), "abc");
    assert_eq!(fill("", "", ""), "");
    assert_eq!(fill("match '", "x'y", "';"), "match 'x'y';");
    assert_eq!(fill2("1", "2", "3", "4", "5"), "12345");
    assert_eq!(fill3("1", "2", "3", "4", "5", "6", "7"), "1234567");
    assert_eq!(fill3("", "é", "", "ü", "", "ß", ""), "éüß");
}

#[test]
fn str_equal_compares_the_characters() {
    assert!(str_equal("", ""));
    assert!(str_equal("count", "count"));
    assert!(!str_equal("count", "Count"));
    assert!(!str_equal("count", "counts"));
    assert!(!str_equal("a", ""));
    assert!(str_equal("naïve", "naïve"));
}

#[test]
fn a_yes_is_one_y_between_blanks() {
    for line in ["y", "Y", "y\n", "Y\r\n", "  y  ", "\ty", "y\u{a0}", "\u{2003}Y\u{3000}", "\u{85}y\u{1680}"] {
        assert!(is_yes(line), "{:?}", line);
        assert_eq!(is_yes(line), line.trim().to_lowercase() == "y");
    }
    for line in ["", " ", "\n", "n", "N", "yes", "yy", "y y", "ye", "no", "Yes\n", "y.", "ý", "\u{200b}y", "1", "y\0"] {
        assert!(!is_yes(line), "{:?}", line);
        assert_eq!(is_yes(line), line.trim().to_lowercase() == "y");
    }
}

#[test]
fn blank_is_what_trim_removes() {
    let mut code = 0u32;
    while code < 0x3100 {
        if let Some(c) = char::from_u32(code) {
            assert_eq!(blank(c), c.is_whitespace(), "U+{:04X}", code);
        }
        code += 1;
    }
    assert!(!blank('y'));
    assert!(!blank('\u{feff}'));
    assert!(!blank('\u{10ffff}'));
}
