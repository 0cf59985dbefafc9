use grove::text::{
    equal, find_from, from_chars, has_pattern, has_prefix, has_suffix, is, is_equal_ignoring_case,
    is_white_space, len_without_trailing, matches_at, pieces, removed, strip_prefix, text_lines,
    to_chars, trimmed, without_leading,
};

const SAMPLES: [&str; 20] = [
    "",
    " ",
    "\n",
    "\r\n",
    "a",
    "  a  ",
    "a\nb",
    "a\n\nb\n",
    "a\r\nb\r\n",
    "a\rb\r",
    "\u{3000}wide\u{2003}",
    "\u{feff}bom",
    "/",
    "a/b//c/",
    "ababab",
    "aaaa",
    "refs/heads/refs/heads/x",
    "grün/ästchen",
    "* * name",
    "FALSE",
];

#[test]
fn characters_and_strings_lead_to_each_other() {
    for sample in SAMPLES {
        let chars = to_chars(sample);
        assert_eq!(chars, sample.chars().collect::<Vec<char>>());
        assert_eq!(from_chars(&chars), sample);
    }
}

#[test]
fn white_space_is_that_of_unicode() {
    for code in 0..=0x10ffff_u32 {
        if let Some(c) = char::from_u32(code) {
            assert_eq!(is_white_space(c), c.is_whitespace(), "{:?}", c);
        }
    }
}

#[test]
fn trimming_takes_white_space_off_both_ends() {
    for sample in SAMPLES {
        let chars = to_chars(sample);
        assert_eq!(from_chars(trimmed(&chars)), sample.trim());
    }
}

#[test]
fn lines_are_those_of_the_standard_library() {
    for sample in SAMPLES {
        let chars = to_chars(sample);
        let lines: Vec<String> = text_lines(&chars).iter().map(|line| from_chars(line)).collect();
        assert_eq!(lines, sample.lines().collect::<Vec<&str>>(), "{:?}", sample);
    }
}

#[test]
fn pieces_are_those_of_the_standard_library() {
    for sample in SAMPLES {
        let chars = to_chars(sample);
        let split: Vec<String> = pieces(&chars, '/').iter().map(|piece| from_chars(piece)).collect();
        assert_eq!(split, sample.split('/').collect::<Vec<&str>>(), "{:?}", sample);
    }
}

#[test]
fn patterns_are_found_and_removed() {
    for sample in SAMPLES {
        let chars = to_chars(sample);
        for pattern in ["a", "ab", "aa", "refs/heads/", "* ", "xyz"] {
            assert_eq!(removed(&chars, pattern), sample.replace(pattern, ""));
            assert_eq!(has_pattern(&chars, pattern), sample.contains(pattern));
            assert_eq!(has_prefix(&chars, pattern), sample.starts_with(pattern));
            assert_eq!(has_suffix(&chars, &to_chars(pattern)), sample.ends_with(pattern));
            assert_eq!(
                strip_prefix(&chars, pattern).map(from_chars).as_deref(),
                sample.strip_prefix(pattern)
            );
            assert_eq!(
                from_chars(without_leading(&chars, pattern)),
                sample.trim_start_matches(pattern)
            );
        }
    }
    assert_eq!(removed(&to_chars("abcabc"), "bc"), "aa");
    assert!(has_pattern(&to_chars("abc"), ""));
    assert_eq!(removed(&to_chars("abc"), ""), "abc");
    assert_eq!(from_chars(without_leading(&to_chars("abc"), "")), "abc");
}

#[test]
fn characters_at_the_end_are_counted() {
    assert_eq!(len_without_trailing(&to_chars("a/b//"), '/'), 3);
    assert_eq!(len_without_trailing(&to_chars("///"), '/'), 0);
    assert_eq!(len_without_trailing(&to_chars("a"), '/'), 1);
}

#[test]
fn characters_are_found_from_a_position() {
    let chars = to_chars("a/b/c");
    assert_eq!(find_from(&chars, 0, '/'), 1);
    assert_eq!(find_from(&chars, 2, '/'), 3);
    assert_eq!(find_from(&chars, 4, '/'), 5);
    assert_eq!(find_from(&chars, 5, '/'), 5);
}

#[test]
fn texts_are_compared() {
    for a in SAMPLES {
        for b in SAMPLES {
            let left = to_chars(a);
            let right = to_chars(b);
            assert_eq!(equal(&left, &right), a == b);
            assert_eq!(is(&left, b), a == b);
            assert_eq!(is_equal_ignoring_case(&left, &right), a.eq_ignore_ascii_case(b));
        }
    }
    assert!(is_equal_ignoring_case(&to_chars("FaLsE"), &to_chars("false")));
    assert!(!is_equal_ignoring_case(&to_chars("Ä"), &to_chars("ä")));
    assert!(!is_equal_ignoring_case(&to_chars("@"), &to_chars("`")));
}

#[test]
fn a_pattern_matches_at_a_position() {
    let chars = to_chars("abcab");
    assert!(matches_at(&chars, 3, &to_chars("ab")));
    assert!(!matches_at(&chars, 4, &to_chars("ab")));
    assert!(matches_at(&chars, 5, &to_chars("")));
}
