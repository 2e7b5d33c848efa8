use edge_agent::text::{
    contains, decimal_text, parse_i32, replace, same_text, signed_decimal_text, trim,
    trimmed_lines, white_space,
};

#[test]
fn white_space_is_that_of_unicode() {
    for n in 0..=0x10ffffu32 {
        if let Some(c) = char::from_u32(n) {
            assert_eq!(white_space(c), c.is_whitespace(), "{:?}", c);
        }
    }
}

#[test]
fn trimming_takes_both_ends() {
    for s in ["", " ", "a", "  a b \t\r\n", "\u{a0}x\u{3000}", "no-space", "é è "] {
        assert_eq!(trim(s), s.trim());
    }
}

#[test]
fn numbers_parse_as_in_the_standard_library() {
    for s in [
        "", "+", "-", "0", "-0", "+7", "007", "2147483647", "2147483648", "-2147483648",
        "-2147483649", "99999999999999999999999999", "12a", " 1", "1 ", "--1", "+-1", "१",
    ] {
        assert_eq!(parse_i32(s), s.parse::<i32>().ok(), "{:?}", s);
    }
}

#[test]
fn numbers_are_written_in_decimal() {
    for n in [0u64, 9, 10, 109, 4294967296, u64::MAX] {
        assert_eq!(decimal_text(n), n.to_string());
    }
    for n in [0i32, -1, 137, i32::MAX, i32::MIN] {
        assert_eq!(signed_decimal_text(n), n.to_string());
    }
}

#[test]
fn patterns_are_found_and_replaced() {
    assert!(contains("io.containerd.runc.v2 nvidia runc", "nvidia"));
    assert!(!contains("nvidi", "nvidia"));
    assert!(contains("abc", ""));
    for s in ["", "aaa", "xaay", "aaaa a"] {
        assert_eq!(replace(s, "aa", "b"), s.replace("aa", "b"));
    }
    assert!(same_text("né", "né"));
    assert!(!same_text("a", "A"));
}

#[test]
fn lines_are_trimmed_and_empty_ones_dropped() {
    let listing = "  one\r\n\n two \n\t\nthree";
    assert_eq!(trimmed_lines(listing), vec!["one", "two", "three"]);
    assert_eq!(trimmed_lines("\n \n"), Vec::<String>::new());
}
