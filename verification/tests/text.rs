use openagent::text::{
    char_is_whitespace, char_to_ascii_lower, decimal_chars, find, find_from, from_chars,
    matches_at, parse_u64, rfind_char, same, slice, starts_with, to_chars, to_lower, trim,
};

fn chars(s: &str) -> Vec<char> {
    s.chars().collect()
}

fn samples() -> Vec<&'static str> {
    vec![
        "",
        " ",
        "a",
        "  a  b  ",
        "\t\r\nText\u{a0}",
        "\u{2003}\u{3000}x\u{1680}\u{85}",
        "Final Answer: 42",
        "```json\n{}\n```",
        "aaa",
        "abcabcabd",
        "\u{e9}t\u{e9} \u{1f600} done",
    ]
}

#[test]
fn whitespace_is_what_std_calls_whitespace() {
    for c in '\0'..=char::MAX {
        assert_eq!(char_is_whitespace(c), c.is_whitespace(), "{:?}", c);
    }
}

#[test]
fn ascii_lower_is_what_std_gives() {
    for c in '\0'..=char::MAX {
        assert_eq!(char_to_ascii_lower(c), c.to_ascii_lowercase(), "{:?}", c);
    }
}

#[test]
fn marker_letters_come_from_ascii_letters_only() {
    // Folding ASCII capitals finds the marker wherever lowering the whole
    // text would: but for the dotted capital I, whose lower-case form puts a
    // mark between the `i` and what follows, no other character lowers to a
    // character of the marker.
    let marker = "final answer:";
    for c in '\0'..=char::MAX {
        let lower: String = c.to_lowercase().collect();
        if lower.chars().any(|x| marker.contains(x)) {
            assert!(
                lower == c.to_ascii_lowercase().to_string() || c == '\u{130}',
                "{:?} lowers to {:?}",
                c,
                lower
            );
        }
    }
    assert_eq!('\u{130}'.to_lowercase().collect::<String>(), "i\u{307}");
}

#[test]
fn chars_and_strings_turn_into_one_another() {
    for s in samples() {
        assert_eq!(to_chars(s), chars(s));
        assert_eq!(from_chars(&chars(s)), s);
    }
}

#[test]
fn trim_agrees_with_std() {
    for s in samples() {
        assert_eq!(from_chars(&trim(&chars(s))), s.trim(), "{s:?}");
    }
}

#[test]
fn lower_agrees_with_std() {
    for s in samples() {
        assert_eq!(from_chars(&to_lower(&chars(s))), s.to_ascii_lowercase(), "{s:?}");
    }
}

#[test]
fn find_agrees_with_std() {
    for s in samples() {
        for pat in ["", "a", "ab", "abd", " ", "```", "Answer:", "\u{e9}", "zz"] {
            let expected = s.find(pat).map(|byte| s[..byte].chars().count());
            assert_eq!(find(&chars(s), &chars(pat)), expected, "{s:?} {pat:?}");
        }
    }
}

#[test]
fn find_from_a_later_index() {
    let text = chars("abcabcabd");
    assert_eq!(find_from(&text, &chars("abc"), 0), Some(0));
    assert_eq!(find_from(&text, &chars("abc"), 1), Some(3));
    assert_eq!(find_from(&text, &chars("abc"), 4), None);
    assert_eq!(find_from(&text, &chars("abd"), 6), Some(6));
    assert_eq!(find_from(&text, &chars("abd"), 7), None);
    assert_eq!(find_from(&text, &chars(""), 9), Some(9));
    assert_eq!(find_from(&text, &chars(""), 10), None);
    assert_eq!(find_from(&text, &chars("abcabcabdx"), 0), None);
}

#[test]
fn rfind_char_agrees_with_std() {
    for s in samples() {
        for c in ['a', '}', ' ', '\u{e9}', 'z'] {
            let expected = s.rfind(c).map(|byte| s[..byte].chars().count());
            assert_eq!(rfind_char(&chars(s), c), expected, "{s:?} {c:?}");
        }
    }
}

#[test]
fn matching_at_an_index() {
    let text = chars("data: x");
    assert!(matches_at(&text, &chars("data: "), 0));
    assert!(!matches_at(&text, &chars("data: "), 1));
    assert!(matches_at(&text, &chars("x"), 6));
    assert!(matches_at(&text, &chars(""), 7));
    assert!(!matches_at(&text, &chars(""), 8));
    assert!(!matches_at(&text, &chars("x"), usize::MAX));
    assert!(starts_with(&text, &chars("data")));
    assert!(!starts_with(&text, &chars("data: x ")));
    assert!(same(&text, &chars("data: x")));
    assert!(!same(&text, &chars("data: y")));
    assert!(!same(&text, &chars("data: ")));
}

#[test]
fn slice_takes_the_characters_between() {
    let text = chars("h\u{e9}llo");
    assert_eq!(slice(&text, 1, 3), chars("\u{e9}l"));
    assert_eq!(slice(&text, 0, 5), text);
    assert_eq!(slice(&text, 5, 5), chars(""));
}

#[test]
fn decimal_agrees_with_std() {
    for n in [0u128, 1, 9, 10, 11, 99, 100, 4096, u64::MAX as u128, u128::MAX] {
        assert_eq!(from_chars(&decimal_chars(n)), n.to_string());
    }
}

#[test]
fn numerals_are_read_as_std_reads_them() {
    for s in [
        "0",
        "00",
        "+1",
        "++1",
        "-1",
        "1_000",
        "18446744073709551615",
        "18446744073709551616",
        "018446744073709551615",
        "184467440737095516150",
        "\u{661}\u{662}",
        "1 ",
        "",
        "+",
    ] {
        assert_eq!(parse_u64(&chars(s)), s.parse::<u64>().ok(), "{s:?}");
    }
}
