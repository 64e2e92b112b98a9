use llm_agent::number::{char_to_digit, decimal_text, digit_to_char, parse_u16_text, push_decimal};
use llm_agent::text::{
    classify, clear_ranges, contains, extend, find, find_char, matches_at, split_whitespace,
    substring, to_chars, trim_bounds, trim_flags,
};

fn chars(s: &str) -> Vec<char> {
    s.chars().collect()
}

#[test]
fn to_chars_and_substring_are_inverse() {
    let text = "héllo wörld ✓";
    let v = to_chars(text);
    assert_eq!(v, chars(text));
    assert_eq!(substring(&v, 0, v.len()), text);
    assert_eq!(substring(&v, 1, 5), "éllo");
    assert_eq!(substring(&v, 3, 3), "");
}

#[test]
fn find_char_gives_the_first_position_or_the_end() {
    let v = chars("a_b_c");
    assert_eq!(find_char(&v, 0, 5, '_'), 1);
    assert_eq!(find_char(&v, 2, 5, '_'), 3);
    assert_eq!(find_char(&v, 4, 5, '_'), 5);
    assert_eq!(find_char(&v, 0, 1, '_'), 1);
    assert_eq!(find_char(&v, 0, 0, 'a'), 0);
}

#[test]
fn trim_bounds_cut_white_space_at_both_ends() {
    let v = chars(" \t x y\u{a0}\r\n");
    assert_eq!(trim_bounds(&v, 0, v.len()), (3, 6));
    assert_eq!(trim_bounds(&v, 4, 5), (5, 5));
    assert_eq!(trim_bounds(&v, 3, 6), (3, 6));
    let blank = chars("   ");
    let (a, b) = trim_bounds(&blank, 0, 3);
    assert_eq!(a, b);
}

#[test]
fn matches_at_and_contains_find_runs() {
    let v = chars("text/event-stream; charset=utf-8");
    assert!(matches_at(&v, 0, v.len(), &chars("text/")));
    assert!(!matches_at(&v, 1, v.len(), &chars("text/")));
    assert!(!matches_at(&v, 0, 3, &chars("text/")));
    assert!(matches_at(&v, v.len(), v.len(), &chars("")));
    assert!(contains(&v, &chars("event-stream")));
    assert!(contains(&v, &chars("utf-8")));
    assert!(contains(&v, &chars("")));
    assert!(!contains(&v, &chars("utf-9")));
    assert!(!contains(&chars("ab"), &chars("abc")));
    assert!(contains(&chars(""), &chars("")));
}

#[test]
fn find_gives_the_first_occurrence_or_the_end() {
    let v = chars("a\n\nb\n\n\nc");
    let blank = chars("\n\n");
    assert_eq!(find(&v, 0, &blank), 1);
    assert_eq!(find(&v, 2, &blank), 4);
    assert_eq!(find(&v, 5, &blank), 5);
    assert_eq!(find(&v, 6, &blank), 8);
    assert_eq!(find(&v, 8, &blank), 8);
}

#[test]
fn split_whitespace_gives_the_words() {
    let words = split_whitespace(&chars("  npx\t-y  @scope/pkg\n"));
    assert_eq!(words, vec!["npx", "-y", "@scope/pkg"]);
    assert!(split_whitespace(&chars("")).is_empty());
    assert!(split_whitespace(&chars(" \t\n")).is_empty());
    assert_eq!(split_whitespace(&chars("one")), vec!["one"]);
    assert_eq!(split_whitespace(&chars("a\u{2003}b")), vec!["a", "b"]);
}

#[test]
fn extend_appends_a_range() {
    let mut out = chars("ab");
    extend(&mut out, &chars("01234"), 1, 4);
    assert_eq!(out, chars("ab123"));
    extend(&mut out, &chars("xyz"), 2, 2);
    assert_eq!(out, chars("ab123"));
    extend(&mut out, &chars("xyz"), 0, 3);
    assert_eq!(out, chars("ab123xyz"));
}

#[test]
fn decimal_text_of_numbers() {
    assert_eq!(decimal_text(0), "0");
    assert_eq!(decimal_text(7), "7");
    assert_eq!(decimal_text(10), "10");
    assert_eq!(decimal_text(404), "404");
    assert_eq!(decimal_text(u64::MAX), "18446744073709551615");
    let mut s = "n=".to_string();
    push_decimal(&mut s, 1203);
    assert_eq!(s, "n=1203");
    for d in 0..10u8 {
        assert_eq!(char_to_digit(digit_to_char(d)), Some(d));
    }
    assert_eq!(char_to_digit('x'), None);
    assert_eq!(char_to_digit('٣'), None);
}

#[test]
fn parse_u16_accepts_what_std_accepts() {
    for text in ["0", "3000", "65535", "+80", "007", "65536", "", "+", "-1", "12a", " 12", "12 ", "1_000", "99999999999999999999", "٣"] {
        assert_eq!(parse_u16_text(text), text.parse::<u16>().ok(), "{:?}", text);
    }
    assert_eq!(parse_u16_text("8080"), Some(8080));
    assert_eq!(parse_u16_text("70000"), None);
}

#[test]
fn white_space_is_classified_per_character() {
    let v = chars(" a\tb\u{a0}\n");
    assert_eq!(classify(&v, 0, v.len()), vec![true, false, true, false, true, true]);
    assert_eq!(classify(&v, 1, 3), vec![false, true]);
    assert!(classify(&v, 2, 2).is_empty());
}

#[test]
fn set_flags_are_cut_off_at_both_ends() {
    let flags = vec![true, true, false, true, false, true];
    assert_eq!(trim_flags(&flags, 0, 6), (2, 5));
    assert_eq!(trim_flags(&flags, 3, 6), (4, 5));
    assert_eq!(trim_flags(&flags, 0, 2), (2, 2));
    assert_eq!(trim_flags(&flags, 2, 3), (2, 3));
    assert_eq!(trim_flags(&flags, 4, 4), (4, 4));
    assert_eq!(trim_flags(&vec![false, false], 0, 2), (0, 2));
    assert_eq!(trim_flags(&vec![], 0, 0), (0, 0));
}

#[test]
fn runs_of_clear_flags_are_found() {
    assert_eq!(clear_ranges(&vec![true, false, false, true, true, false]), vec![(1, 3), (5, 6)]);
    assert_eq!(clear_ranges(&vec![false, true, false]), vec![(0, 1), (2, 3)]);
    assert_eq!(clear_ranges(&vec![false, false]), vec![(0, 2)]);
    assert!(clear_ranges(&vec![true, true]).is_empty());
    assert!(clear_ranges(&vec![]).is_empty());
}
