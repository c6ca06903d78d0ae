use rp_watch::text::{
    chars_of, comes_before, parse_decimal, render_decimal, render_padded, string_of, trim,
};

#[test]
fn numerals_are_written() {
    assert_eq!(render_decimal(0), "0");
    assert_eq!(render_decimal(7), "7");
    assert_eq!(render_decimal(10), "10");
    assert_eq!(render_decimal(1705), "1705");
    assert_eq!(render_decimal(u32::MAX), "4294967295");
}

#[test]
fn numerals_are_padded_up_to_the_width() {
    assert_eq!(render_padded(9, 2), "09");
    assert_eq!(render_padded(12, 2), "12");
    assert_eq!(render_padded(123, 2), "123");
    assert_eq!(render_padded(0, 4), "0000");
    assert_eq!(render_padded(2021, 4), "2021");
    assert_eq!(render_padded(5, 0), "5");
}

#[test]
fn numerals_are_read() {
    assert_eq!(parse_decimal("0"), Some(0));
    assert_eq!(parse_decimal("950"), Some(950));
    assert_eq!(parse_decimal("007"), Some(7));
    assert_eq!(parse_decimal("4294967295"), Some(u32::MAX));
}

#[test]
fn what_is_no_numeral_is_not_read() {
    assert_eq!(parse_decimal(""), None);
    assert_eq!(parse_decimal("4294967296"), None);
    assert_eq!(parse_decimal("99999999999999999999999999"), None);
    assert_eq!(parse_decimal("+5"), None);
    assert_eq!(parse_decimal("-5"), None);
    assert_eq!(parse_decimal("1 "), None);
    assert_eq!(parse_decimal("1,705"), None);
    assert_eq!(parse_decimal("12a"), None);
    // Arabic-Indic digits are digits to a pattern and no numeral here.
    assert_eq!(parse_decimal("\u{0661}\u{0662}"), None);
}

#[test]
fn a_written_numeral_reads_back() {
    let samples = [0u32, 1, 9, 10, 11, 99, 100, 950, 1705, 65535, 65536, 999_999_999, u32::MAX];
    for n in samples {
        assert_eq!(parse_decimal(&render_decimal(n)), Some(n));
        assert_eq!(parse_decimal(&render_padded(n, 12)), Some(n));
    }
}

#[test]
fn written_numerals_are_those_of_the_standard_library() {
    let mut n: u32 = 0;
    loop {
        assert_eq!(render_decimal(n), n.to_string());
        assert_eq!(render_padded(n, 4), format!("{:04}", n));
        assert_eq!(parse_decimal(&n.to_string()), Some(n));
        if n > u32::MAX - 104_729 {
            break;
        }
        n += 104_729;
    }
}

#[test]
fn white_space_is_trimmed_at_both_ends() {
    assert_eq!(trim(""), "");
    assert_eq!(trim("   "), "");
    assert_eq!(trim("a"), "a");
    assert_eq!(trim("  \n$1,705.00\t "), "$1,705.00");
    assert_eq!(trim("for  12 Months\r\n"), "for  12 Months");
    assert_eq!(trim("\u{a0}2BR - N0501\u{3000}"), "2BR - N0501");
    // A zero width space and a byte order mark are no white space.
    assert_eq!(trim("\u{200b}x\u{feff}"), "\u{200b}x\u{feff}");
}

#[test]
fn white_space_is_what_the_standard_library_takes_for_it() {
    for code in 0u32..0x3100 {
        if let Some(c) = char::from_u32(code) {
            let s = format!("{}a{}", c, c);
            assert_eq!(trim(&s), s.trim(), "U+{:04X}", code);
        }
    }
}

#[test]
fn strings_are_ordered_character_by_character() {
    assert!(comes_before("", "a"));
    assert!(!comes_before("", ""));
    assert!(!comes_before("a", ""));
    assert!(comes_before("N0501", "N0502"));
    assert!(comes_before("N0501", "S0203"));
    assert!(comes_before("N05", "N0501"));
    assert!(!comes_before("N0501", "N05"));
    assert!(!comes_before("S0203", "S0203"));
    assert!(!comes_before("S0203", "N9999"));
}

#[test]
fn the_order_is_that_of_the_standard_library() {
    let samples = ["", "a", "ab", "b", "N0501", "N0502", "S0203", "é", "z", "\u{10000}", "\u{ffff}", "Z", "0"];
    for a in samples {
        for b in samples {
            assert_eq!(comes_before(a, b), a < b, "{:?} {:?}", a, b);
        }
    }
}

#[test]
fn characters_go_to_a_vector_and_back() {
    let v = chars_of("2BR - é");
    assert_eq!(v, vec!['2', 'B', 'R', ' ', '-', ' ', 'é']);
    assert_eq!(string_of(&v, 0, v.len()), "2BR - é");
    assert_eq!(string_of(&v, 6, 7), "é");
    assert_eq!(string_of(&v, 3, 3), "");
}
