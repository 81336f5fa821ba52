//! The box-drawing stripper: removes the vertical bars that frame a
//! terminal capture.
use crate::lines::{join_lines, joined, lemma_join_lines_of, lines_of, split_lines, views};
use crate::matcher::{
    is_match, regex_is_match, regex_replace, regex_replace_all, replace_all, replace_first,
};
use crate::patterns::{
    patterns_compile, BOX_AFTER_PIPE, BOX_GLYPH, BOX_LEADING, BOX_MID_TOKEN, BOX_PATH_JOIN,
    BOX_TRAILING, SPACE_RUN,
};
use crate::quorum::{
    count_non_blank, count_where, lemma_count_step, meets_quorum, non_blank_count, quorum_met,
};
use crate::search::{replace_literal, replaced};
use crate::text::{copy_text, same_text, trim_text, trimmed};
use vstd::prelude::*;

verus! {

/// A left and a right border with one space between them.
pub const DOUBLED_GUTTER: &'static str = "│ │";

/// Whether a line, trimmed, is not empty and starts with a gutter.
pub open spec fn leads_with_gutter(line: Seq<char>) -> bool {
    let t = trimmed(line);
    t.len() > 0 && regex_is_match(BOX_LEADING@, t)
}

/// Whether a line, trimmed, is not empty and ends with a gutter.
pub open spec fn trails_with_gutter(line: Seq<char>) -> bool {
    let t = trimmed(line);
    t.len() > 0 && regex_is_match(BOX_TRAILING@, t)
}

/// Whether a majority of the lines that are not blank start with a
/// gutter.
pub open spec fn leading_quorum(lines: Seq<Seq<char>>) -> bool {
    quorum_met(count_where(lines, |l: Seq<char>| leads_with_gutter(l)), non_blank_count(lines))
}

/// Whether a majority of the lines that are not blank end with a gutter.
pub open spec fn trailing_quorum(lines: Seq<Seq<char>>) -> bool {
    quorum_met(count_where(lines, |l: Seq<char>| trails_with_gutter(l)), non_blank_count(lines))
}

/// A line without the gutter at its start, if `lead`, and then without
/// the gutter at its end, if `trail`. The line is taken without its line
/// feed, so that the feed is no part of what goes.
pub open spec fn frame_stripped(line: Seq<char>, lead: bool, trail: bool) -> Seq<char> {
    let a = if lead {
        regex_replace(BOX_LEADING@, line, ""@)
    } else {
        line
    };
    if trail {
        regex_replace(BOX_TRAILING@, a, ""@)
    } else {
        a
    }
}

/// The text without the gutters that frame its lines. The gutters at the
/// start go only where a majority of the lines has one, and so do those
/// at the end. The lines stay lines: each is stripped by itself, and the
/// line feeds between them are kept.
pub open spec fn frames_stripped(text: Seq<char>) -> Seq<char> {
    let lines = lines_of(text);
    let lead = leading_quorum(lines);
    let trail = trailing_quorum(lines);
    joined(lines.map_values(|l: Seq<char>| frame_stripped(l, lead, trail)))
}

/// Without a majority at either end the text keeps its frame.
pub proof fn lemma_frames_stay_without_majority(text: Seq<char>)
    requires
        !leading_quorum(lines_of(text)),
        !trailing_quorum(lines_of(text)),
    ensures
        frames_stripped(text) == text,
{
    let lines = lines_of(text);
    assert(lines.map_values(|l: Seq<char>| frame_stripped(l, false, false)) == lines);
    lemma_join_lines_of(text);
}

/// The text with the gutters inside its lines turned into spacing: after
/// a pipe, between a path separator and what follows, and between two
/// tokens; then each run of spaces as one. A gutter that stands nowhere
/// of these stays.
pub open spec fn inner_gutters_collapsed(text: Seq<char>) -> Seq<char> {
    let piped = regex_replace_all(BOX_AFTER_PIPE@, text, "| "@);
    let paths = regex_replace_all(BOX_PATH_JOIN@, piped, "$1$2"@);
    let tokens = regex_replace_all(BOX_MID_TOKEN@, paths, "$1 $2"@);
    regex_replace_all(SPACE_RUN@, tokens, " "@)
}

/// The text cleaned of gutters: doubled gutters become one space, the
/// frame goes by majority, the gutters inside become spacing, and both
/// ends are trimmed.
pub open spec fn gutters_cleaned(text: Seq<char>) -> Seq<char> {
    let merged = replaced(text, DOUBLED_GUTTER@, " "@);
    trimmed(inner_gutters_collapsed(frames_stripped(merged)))
}

/// The text cleaned of gutters, where it holds a gutter glyph and the
/// cleaning changes it; else nothing.
pub open spec fn gutters_stripped(text: Seq<char>) -> Option<Seq<char>> {
    if regex_is_match(BOX_GLYPH@, text) && gutters_cleaned(text) != text {
        Some(gutters_cleaned(text))
    } else {
        None
    }
}

/// The text without the gutters that frame its lines.
pub fn strip_frames(text: &Vec<char>) -> (r: Vec<char>)
    requires
        patterns_compile(),
    ensures
        r@ == frames_stripped(text@),
{
    let lines = split_lines(text);
    let non_blank = count_non_blank(&lines);
    let mut leading: usize = 0;
    let mut trailing: usize = 0;
    let mut k: usize = 0;
    while k < lines.len()
        invariant
            patterns_compile(),
            k <= lines.len(),
            leading <= k,
            trailing <= k,
            leading == count_where(
                views(lines@).take(k as int),
                |l: Seq<char>| leads_with_gutter(l),
            ),
            trailing == count_where(
                views(lines@).take(k as int),
                |l: Seq<char>| trails_with_gutter(l),
            ),
        decreases lines.len() - k,
    {
        proof {
            lemma_count_step(views(lines@), |l: Seq<char>| leads_with_gutter(l), k as int);
            lemma_count_step(views(lines@), |l: Seq<char>| trails_with_gutter(l), k as int);
        }
        let t = trim_text(&lines[k]);
        if t.len() > 0 {
            if is_match(BOX_LEADING, &t) {
                leading += 1;
            }
            if is_match(BOX_TRAILING, &t) {
                trailing += 1;
            }
        }
        k += 1;
    }
    assert(views(lines@).take(lines.len() as int) == views(lines@));
    let lead = meets_quorum(leading, non_blank);
    let trail = meets_quorum(trailing, non_blank);
    if !(lead || trail) {
        proof {
            lemma_frames_stay_without_majority(text@);
        }
        return copy_text(text);
    }
    let mut rebuilt: Vec<Vec<char>> = Vec::new();
    let mut j: usize = 0;
    let ghost all = views(lines@);
    let ghost strip = |l: Seq<char>| frame_stripped(l, lead, trail);
    while j < lines.len()
        invariant
            patterns_compile(),
            j <= lines.len(),
            all == views(lines@),
            strip == |l: Seq<char>| frame_stripped(l, lead, trail),
            views(rebuilt@) == all.take(j as int).map_values(strip),
        decreases lines.len() - j,
    {
        let ghost before = views(rebuilt@);
        let a = if lead {
            replace_first(BOX_LEADING, &lines[j], "")
        } else {
            copy_text(&lines[j])
        };
        let b = if trail {
            replace_first(BOX_TRAILING, &a, "")
        } else {
            a
        };
        assert(views(rebuilt@.push(b)) == before.push(b@));
        rebuilt.push(b);
        j += 1;
    }
    assert(all.take(lines.len() as int) == all);
    join_lines(&rebuilt)
}

/// Removes the gutters of a terminal capture; `None` where the text holds
/// no gutter glyph or comes out as it went in.
pub fn strip_box_drawing_characters(text: &Vec<char>) -> (r: Option<Vec<char>>)
    requires
        patterns_compile(),
    ensures
        r is Some == gutters_stripped(text@) is Some,
        r matches Some(cleaned) ==> gutters_stripped(text@) == Some(cleaned@) && cleaned@
            != text@,
{
    if !is_match(BOX_GLYPH, text) {
        return None;
    }
    let merged = replace_literal(text, DOUBLED_GUTTER, " ");
    let framed = strip_frames(&merged);
    let piped = replace_all(BOX_AFTER_PIPE, &framed, "| ");
    let paths = replace_all(BOX_PATH_JOIN, &piped, "$1$2");
    let tokens = replace_all(BOX_MID_TOKEN, &paths, "$1 $2");
    let collapsed = replace_all(SPACE_RUN, &tokens, " ");
    let cleaned = trim_text(&collapsed);
    if same_text(&cleaned, text) {
        None
    } else {
        Some(cleaned)
    }
}

} // verus!
