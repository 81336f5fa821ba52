use trimmeh_core::lines::{exceeds_line_limit, join_lines, normalize_newlines, split_lines};
use trimmeh_core::quorum::{count_non_blank, meets_quorum};
use trimmeh_core::search::{
    contains_literal, count_literal, matches_at, replace_literal, starts_with,
};
use trimmeh_core::text::{
    append_text, char_is_space, contains_char, copy_range, copy_text, first_word, is_blank,
    same_text, skip_non_spaces, skip_spaces, to_chars, to_text, trim_text,
};

fn chars(s: &str) -> Vec<char> {
    s.chars().collect()
}

fn lines(items: &[&str]) -> Vec<Vec<char>> {
    items.iter().map(|s| chars(s)).collect()
}

#[test]
fn whitespace_is_the_unicode_property() {
    for code in 0..=0x10FFFF_u32 {
        if let Some(c) = char::from_u32(code) {
            assert_eq!(char_is_space(c), c.is_whitespace(), "U+{:04X}", code);
        }
    }
    assert!(char_is_space('\u{a0}'));
    assert!(char_is_space('\u{3000}'));
    assert!(!char_is_space('\u{200b}'));
}

#[test]
fn trimming_removes_whitespace_at_both_ends_only() {
    assert_eq!(trim_text(&chars(" \t a b \u{a0}\n")), chars("a b"));
    assert_eq!(trim_text(&chars("a b")), chars("a b"));
    assert_eq!(trim_text(&chars(" \n\t")), chars(""));
    assert_eq!(trim_text(&chars("")), chars(""));
    assert_eq!(trim_text(&chars("x")), chars("x"));
    assert_eq!(trim_text(&chars("\u{2003}│ x")), chars("│ x"));
}

#[test]
fn blank_texts() {
    assert!(is_blank(&chars("")));
    assert!(is_blank(&chars("\u{2003} \t\r\n")));
    assert!(!is_blank(&chars(" x ")));
    assert!(!is_blank(&chars("\u{200b}")));
}

#[test]
fn skipping_runs() {
    let s = chars("  ab  c");
    assert_eq!(skip_spaces(&s, 0), 2);
    assert_eq!(skip_spaces(&s, 2), 2);
    assert_eq!(skip_non_spaces(&s, 2), 4);
    assert_eq!(skip_spaces(&s, 4), 6);
    assert_eq!(skip_non_spaces(&s, 6), 7);
    assert_eq!(skip_spaces(&s, 7), 7);
}

#[test]
fn first_word_of_a_text() {
    assert_eq!(first_word(&chars("  git  status")), chars("git"));
    assert_eq!(first_word(&chars("git")), chars("git"));
    assert_eq!(first_word(&chars("   ")), chars(""));
    assert_eq!(first_word(&chars("a\tb")), chars("a"));
}

#[test]
fn lines_are_the_segments_between_line_feeds() {
    assert_eq!(split_lines(&chars("a\n\nb\n")), lines(&["a", "", "b", ""]));
    assert_eq!(split_lines(&chars("")), lines(&[""]));
    assert_eq!(split_lines(&chars("abc")), lines(&["abc"]));
    assert_eq!(split_lines(&chars("\n")), lines(&["", ""]));
    assert_eq!(split_lines(&chars("a\r\nb")), lines(&["a\r", "b"]));
}

#[test]
fn joining_undoes_splitting() {
    for text in ["", "a", "a\nb", "\n", "a\n\nb\n", "\n\n\n", "x\ny\nz"] {
        assert_eq!(join_lines(&split_lines(&chars(text))), chars(text));
    }
    assert_eq!(join_lines(&lines(&["a", "b"])), chars("a\nb"));
    assert_eq!(join_lines(&lines(&[])), chars(""));
}

#[test]
fn line_ends_become_line_feeds() {
    assert_eq!(normalize_newlines(&chars("a\r\nb\rc\n\r\r\n")), chars("a\nb\nc\n\n\n"));
    assert_eq!(normalize_newlines(&chars("plain\ntext")), chars("plain\ntext"));
    assert_eq!(normalize_newlines(&chars("\r")), chars("\n"));
    assert_eq!(normalize_newlines(&chars("\r\n")), chars("\n"));
    assert_eq!(normalize_newlines(&chars("\n\r")), chars("\n\n"));
    assert_eq!(normalize_newlines(&chars("")), chars(""));
    let once = normalize_newlines(&chars("a\r\r\nb\r"));
    assert_eq!(normalize_newlines(&once), once);
    assert!(!once.contains(&'\r'));
}

#[test]
fn line_limit() {
    assert!(exceeds_line_limit(&chars("a\nb"), 1));
    assert!(!exceeds_line_limit(&chars("a\nb"), 2));
    assert!(exceeds_line_limit(&chars(""), 0));
    assert!(!exceeds_line_limit(&chars(""), 1));
    assert!(exceeds_line_limit(&chars("\n\n\n"), 3));
    assert!(!exceeds_line_limit(&chars("\n\n\n"), 4));
    assert!(!exceeds_line_limit(&chars("a\nb"), usize::MAX));
}

#[test]
fn literal_search() {
    let s = chars("abcabc");
    assert!(matches_at(&s, 0, &chars("abc")));
    assert!(matches_at(&s, 3, &chars("abc")));
    assert!(!matches_at(&s, 4, &chars("abc")));
    assert!(!matches_at(&s, 1, &chars("abc")));
    assert!(matches_at(&s, 6, &chars("")));
    assert!(starts_with(&s, "abca"));
    assert!(!starts_with(&s, "b"));
    assert!(!starts_with(&chars("ab"), "abc"));
    assert!(contains_literal(&s, "cab"));
    assert!(contains_literal(&s, "abcabc"));
    assert!(!contains_literal(&s, "abcabca"));
    assert!(!contains_literal(&s, "ac"));
    assert!(contains_literal(&chars("a \\\n b"), "\\\n"));
    assert!(contains_char(&s, 'c'));
    assert!(!contains_char(&s, 'd'));
}

#[test]
fn occurrences_do_not_overlap() {
    assert_eq!(count_literal(&chars("aaaa"), "aa"), 2);
    assert_eq!(count_literal(&chars("aaa"), "aa"), 1);
    assert_eq!(count_literal(&chars("http://a https://b http://c"), "http://"), 2);
    assert_eq!(count_literal(&chars("http://a https://b http://c"), "https://"), 1);
    assert_eq!(count_literal(&chars("abc"), "abcd"), 0);
    assert_eq!(count_literal(&chars(""), "a"), 0);
}

#[test]
fn replacing_goes_from_the_left() {
    assert_eq!(replace_literal(&chars("│ │ │"), "│ │", " "), chars("  │"));
    assert_eq!(replace_literal(&chars("a│ │b│ │c"), "│ │", " "), chars("a b c"));
    assert_eq!(replace_literal(&chars("aaaa"), "aa", "b"), chars("bb"));
    assert_eq!(replace_literal(&chars("aaa"), "aa", "b"), chars("ba"));
    assert_eq!(replace_literal(&chars("xMARKy"), "MARK", "\n\n"), chars("x\n\ny"));
    assert_eq!(replace_literal(&chars("abc"), "d", "e"), chars("abc"));
    assert_eq!(replace_literal(&chars("abc"), "", "e"), chars("abc"));
    assert_eq!(replace_literal(&chars("abc"), "abc", ""), chars(""));
}

#[test]
fn copies_and_comparisons() {
    let s = chars("hello");
    assert_eq!(copy_range(&s, 1, 3), chars("el"));
    assert_eq!(copy_range(&s, 2, 2), chars(""));
    assert_eq!(copy_text(&s), s);
    assert!(same_text(&s, &chars("hello")));
    assert!(!same_text(&s, &chars("hellp")));
    assert!(!same_text(&s, &chars("hell")));
    let mut out = chars("ab");
    append_text(&mut out, &chars("cd"));
    assert_eq!(out, chars("abcd"));
}

#[test]
fn strings_and_characters_convert_both_ways() {
    let s = "päth/│ x ￨";
    assert_eq!(to_chars(s), chars(s));
    assert_eq!(to_text(&chars(s)), s);
    assert_eq!(to_text(&to_chars("")), "");
}

#[test]
fn a_quorum_is_more_than_half() {
    assert!(!meets_quorum(0, 0));
    assert!(meets_quorum(1, 1));
    assert!(!meets_quorum(0, 1));
    assert!(!meets_quorum(1, 2));
    assert!(meets_quorum(2, 2));
    assert!(!meets_quorum(1, 3));
    assert!(meets_quorum(2, 3));
    assert!(!meets_quorum(2, 4));
    assert!(meets_quorum(3, 4));
    assert!(!meets_quorum(2, 5));
    assert!(meets_quorum(3, 5));
}

#[test]
fn blank_lines_do_not_count() {
    assert_eq!(count_non_blank(&lines(&["a", "", " \t", "b", "\u{a0}"])), 2);
    assert_eq!(count_non_blank(&lines(&[])), 0);
    assert_eq!(count_non_blank(&lines(&[""])), 0);
}

fn samples() -> Vec<String> {
    let alphabet: Vec<char> =
        "ab-$#│ \t\n\r\u{a0}\u{2003}/.:h\\".chars().collect();
    let mut state: u64 = 0x2545_f491_4f6c_dd1d;
    let mut out = vec![String::new()];
    for round in 0..4000 {
        let len = 1 + round % 12;
        let mut s = String::new();
        for _ in 0..len {
            state = state.wrapping_mul(6364136223846793005).wrapping_add(1442695040888963407);
            let pick = ((state >> 33) % (alphabet.len() as u64)) as usize;
            s.push(alphabet[pick]);
        }
        out.push(s);
    }
    out
}

#[test]
fn trimming_agrees_with_the_standard_library() {
    for s in samples() {
        let v = chars(&s);
        assert_eq!(to_text(&trim_text(&v)), s.trim(), "{:?}", s);
        assert_eq!(is_blank(&v), s.trim().is_empty(), "{:?}", s);
        assert_eq!(to_text(&first_word(&v)), s.split_whitespace().next().unwrap_or(""), "{:?}", s);
        let leading = s.chars().take_while(|c| c.is_whitespace()).count();
        assert_eq!(skip_spaces(&v, 0), leading, "{:?}", s);
    }
}

#[test]
fn lines_agree_with_the_standard_library() {
    for s in samples() {
        let v = chars(&s);
        let expected: Vec<Vec<char>> = s.split('\n').map(chars).collect();
        assert_eq!(split_lines(&v), expected, "{:?}", s);
        let joined: Vec<&str> = s.split('\n').collect();
        assert_eq!(to_text(&join_lines(&expected)), joined.join("\n"), "{:?}", s);
        assert_eq!(
            to_text(&normalize_newlines(&v)),
            s.replace("\r\n", "\n").replace('\r', "\n"),
            "{:?}",
            s
        );
        for limit in 0..4 {
            assert_eq!(exceeds_line_limit(&v, limit), s.split('\n').count() > limit, "{:?}", s);
        }
    }
}

#[test]
fn literal_search_agrees_with_the_standard_library() {
    let needles = ["a", "ab", "aa", "│ │", "\\\n", "h", "  ", "\n\n", "-$"];
    for s in samples() {
        let v = chars(&s);
        for needle in needles {
            assert_eq!(contains_literal(&v, needle), s.contains(needle), "{:?} {:?}", s, needle);
            assert_eq!(starts_with(&v, needle), s.starts_with(needle), "{:?} {:?}", s, needle);
            assert_eq!(count_literal(&v, needle), s.matches(needle).count(), "{:?} {:?}", s, needle);
            assert_eq!(
                to_text(&replace_literal(&v, needle, " ")),
                s.replace(needle, " "),
                "{:?} {:?}",
                s,
                needle
            );
            assert_eq!(
                to_text(&replace_literal(&v, needle, "\n\n")),
                s.replace(needle, "\n\n"),
                "{:?} {:?}",
                s,
                needle
            );
        }
    }
}
