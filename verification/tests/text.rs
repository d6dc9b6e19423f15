use rrss_cli_rs::text::{blank, ends_with, find_from, less, replace, same_text, trim_between};

const SAMPLES: [&str; 14] = [
    "", "a", "b", "ab", "abc", "abd", "B", "accent", "bg", "é", "ée", "z", "日本", "a b",
];

#[test]
fn same_text_is_equality() {
    for a in SAMPLES {
        for b in SAMPLES {
            assert_eq!(same_text(a, b), a == b, "{:?} {:?}", a, b);
        }
    }
}

#[test]
fn less_is_the_order_of_strings() {
    for a in SAMPLES {
        for b in SAMPLES {
            assert_eq!(less(a, b), a < b, "{:?} {:?}", a, b);
        }
    }
}

#[test]
fn ends_with_is_the_suffix_test() {
    for a in SAMPLES {
        for b in SAMPLES {
            assert_eq!(ends_with(a, b), a.ends_with(b), "{:?} {:?}", a, b);
        }
    }
    assert!(ends_with("logo.svg", ".svg"));
    assert!(!ends_with("logo.SVG", ".svg"));
    assert!(!ends_with("svg", ".svg"));
    assert!(ends_with(".svg", ".svg"));
}

#[test]
fn blanks_are_those_of_unicode() {
    for x in 0..=0x11000u32 {
        if let Some(c) = char::from_u32(x) {
            assert_eq!(blank(c), c.is_whitespace(), "U+{:04X}", x);
        }
    }
}

#[test]
fn trimming_is_that_of_strings() {
    for s in ["", " ", "a", " a", "a ", "  a b  ", "\t\n x \r\n", "\u{a0}é\u{3000}", "   ", "a\u{200b} "] {
        let n = s.chars().count();
        assert_eq!(trim_between(s, 0, n), s.trim(), "{:?}", s);
    }
    assert_eq!(trim_between("ab | cd |e", 4, 8), "cd");
    assert_eq!(trim_between("ab | cd |e", 2, 2), "");
    assert_eq!(trim_between("ab", 2, 2), "");
}

#[test]
fn finding_a_character() {
    assert_eq!(find_from("a|b|c", 0, '|'), 1);
    assert_eq!(find_from("a|b|c", 1, '|'), 1);
    assert_eq!(find_from("a|b|c", 2, '|'), 3);
    assert_eq!(find_from("a|b|c", 4, '|'), 5);
    assert_eq!(find_from("a|b|c", 5, '|'), 5);
    assert_eq!(find_from("", 0, '|'), 0);
    assert_eq!(find_from("é|", 0, '|'), 1);
}

#[test]
fn replacing_is_that_of_strings() {
    let texts = ["", "a", "aaa", "aaaa", "abcabc", "{x}{y}{x}", "{{x}}", "x{x", "ééé", "é{é}é"];
    let patterns = ["a", "aa", "abc", "{x}", "é", "{é}", "zz", "abcabcabc"];
    let values = ["", "b", "aa", "{x}", "日本"];
    for s in texts {
        for from in patterns {
            for to in values {
                assert_eq!(replace(s, from, to), s.replace(from, to), "{:?} {:?} {:?}", s, from, to);
            }
        }
    }
}

#[test]
fn empty_pattern_replaces_nothing() {
    assert_eq!(replace("abc", "", "x"), "abc");
    assert_eq!(replace("", "", "x"), "");
}
