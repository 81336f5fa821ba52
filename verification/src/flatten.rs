//! The flattener: rejoins the lines of a wrapped command into one line.
use crate::matcher::{is_match, regex_is_match, regex_replace_all, replace_all};
use crate::patterns::{
    patterns_compile, ADJ_WORD_JOIN, BACKSLASH_NEWLINE, BLANK_RUN, HYPHEN_JOIN, NEWLINES, PATH_JOIN,
    SPACES,
};
use crate::search::{replace_literal, replaced};
use crate::text::{copy_text, lemma_trimmed_is_trim, trim_text, trimmed};
use vstd::prelude::*;

verus! {

/// The token that stands for a blank line while the lines are rejoined.
pub const BLANK_PLACEHOLDER: &'static str = "__TRIMMEH_BLANK__PLACEHOLDER__";

/// The text with each run of blank lines held by the placeholder, where
/// blank lines are to be kept.
pub open spec fn blank_lines_marked(text: Seq<char>, keep: bool) -> Seq<char> {
    if keep {
        regex_replace_all(BLANK_RUN@, text, BLANK_PLACEHOLDER@)
    } else {
        text
    }
}

/// The text with its broken words rejoined: first a word broken after a
/// hyphen, then two upper-case or identifier-like tokens, then a path
/// broken after a separator.
pub open spec fn breaks_rejoined(text: Seq<char>) -> Seq<char> {
    let hyphens = regex_replace_all(HYPHEN_JOIN@, text, "$1-$2"@);
    let words = regex_replace_all(ADJ_WORD_JOIN@, hyphens, "$1$2"@);
    regex_replace_all(PATH_JOIN@, words, "$1$2"@)
}

/// Whether a backslash continues a line of the text.
pub open spec fn has_continuation(text: Seq<char>) -> bool {
    regex_is_match(BACKSLASH_NEWLINE@, text)
}

/// The text with each continuing backslash and its line break as one
/// space.
pub open spec fn continuations_merged(text: Seq<char>) -> Seq<char> {
    if has_continuation(text) {
        regex_replace_all(BACKSLASH_NEWLINE@, text, " "@)
    } else {
        text
    }
}

/// The text with its remaining line breaks as spaces, and then each run
/// of whitespace as one space.
pub open spec fn whitespace_collapsed(text: Seq<char>) -> Seq<char> {
    regex_replace_all(SPACES@, regex_replace_all(NEWLINES@, text, " "@), " "@)
}

/// The text with each placeholder as one blank line again, where blank
/// lines are to be kept.
pub open spec fn blank_lines_restored(text: Seq<char>, keep: bool) -> Seq<char> {
    if keep {
        replaced(text, BLANK_PLACEHOLDER@, "\n\n"@)
    } else {
        text
    }
}

/// The text rewritten into one line, in this order: blank lines marked,
/// broken words rejoined, continuations merged, whitespace collapsed,
/// blank lines restored, both ends trimmed.
pub open spec fn flattened_text(text: Seq<char>, keep: bool) -> Seq<char> {
    let rejoined = breaks_rejoined(blank_lines_marked(text, keep));
    let collapsed = whitespace_collapsed(continuations_merged(rejoined));
    trimmed(blank_lines_restored(collapsed, keep))
}

/// Whether flattening the text merges a continuing backslash: whether one
/// is left once the broken words are rejoined.
pub open spec fn merges_backslash(text: Seq<char>, keep: bool) -> bool {
    has_continuation(breaks_rejoined(blank_lines_marked(text, keep)))
}

/// Rewrites the text into one line and reports whether a continuing
/// backslash was merged. What comes back has no whitespace at its ends.
pub fn flatten(text: &Vec<char>, preserve_blank_lines: bool) -> (r: (Vec<char>, bool))
    requires
        patterns_compile(),
    ensures
        r.0@ == flattened_text(text@, preserve_blank_lines),
        r.1 == merges_backslash(text@, preserve_blank_lines),
        trimmed(r.0@) == r.0@,
{
    let marked = if preserve_blank_lines {
        replace_all(BLANK_RUN, text, BLANK_PLACEHOLDER)
    } else {
        copy_text(text)
    };
    let hyphens = replace_all(HYPHEN_JOIN, &marked, "$1-$2");
    let words = replace_all(ADJ_WORD_JOIN, &hyphens, "$1$2");
    let rejoined = replace_all(PATH_JOIN, &words, "$1$2");
    let merged_backslash = is_match(BACKSLASH_NEWLINE, &rejoined);
    let merged = if merged_backslash {
        replace_all(BACKSLASH_NEWLINE, &rejoined, " ")
    } else {
        rejoined
    };
    let single = replace_all(NEWLINES, &merged, " ");
    let collapsed = replace_all(SPACES, &single, " ");
    let restored = if preserve_blank_lines {
        replace_literal(&collapsed, BLANK_PLACEHOLDER, "\n\n")
    } else {
        collapsed
    };
    proof {
        lemma_trimmed_is_trim(restored@);
    }
    (trim_text(&restored), merged_backslash)
}

} // verus!
