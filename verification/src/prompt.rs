//! The prompt stripper: removes the `$` or `#` that a terminal printed
//! before a command, where a majority of the lines carry one.
use crate::commands::{names_known_command, starts_with_known_command};
use crate::lines::{
    join_lines, joined, lemma_join_lines_of, lemma_joined_len, lines_of, split_lines, total_len,
    views,
};
use crate::quorum::{
    count_non_blank, count_where, lemma_count_monotone, lemma_count_step,
    lemma_quorum_is_strict_majority, meets_quorum, non_blank_count, quorum_met,
};
use crate::text::{
    append_text, blank, copy_range, copy_text, leading_spaces, lemma_trim_bounds, skip_spaces,
    trim_text, trimmed, trimmed_start,
};
use vstd::prelude::*;

verus! {

/// The markers that a shell prints before a command.
pub open spec fn is_prompt_marker(c: char) -> bool {
    c == '#' || c == '$'
}

/// The characters that mark a text as a command rather than prose: the
/// punctuation of options and paths, the dollar sign, and the digits.
pub open spec fn is_command_char(c: char) -> bool {
    c == '-' || c == '.' || c == '/' || c == '~' || c == '$' || ('0' <= c && c <= '9')
}

/// Whether `s` holds a character that marks it as a command.
pub open spec fn has_command_chars(s: Seq<char>) -> bool {
    exists|i: int| 0 <= i < s.len() && is_command_char(#[trigger] s[i])
}

/// Whether `t` ends as a sentence does.
pub open spec fn ends_like_prose(t: Seq<char>) -> bool {
    t.len() > 0 && (t.last() == '.' || t.last() == '?' || t.last() == '!')
}

/// Whether what follows a prompt marker reads as a command: it is not
/// empty, does not end like a sentence, and holds a command character or
/// starts with a known command.
pub open spec fn likely_prompt_command(content: Seq<char>) -> bool {
    let t = trimmed(content);
    &&& t.len() > 0
    &&& !ends_like_prose(t)
    &&& (has_command_chars(t) || names_known_command(t))
}

/// The line without its prompt marker and the whitespace after it, where
/// the first character after the indentation is a marker and a command
/// follows it. The indentation stays.
pub open spec fn prompt_stripped_line(line: Seq<char>) -> Option<Seq<char>> {
    let n = leading_spaces(line) as int;
    let rest = line.skip(n);
    if rest.len() > 0 && is_prompt_marker(rest[0]) && likely_prompt_command(
        trimmed_start(rest.skip(1)),
    ) {
        Some(line.take(n) + trimmed_start(rest.skip(1)))
    } else {
        None
    }
}

/// Whether a line carries a prompt that can be stripped.
pub open spec fn qualifies(line: Seq<char>) -> bool {
    prompt_stripped_line(line) is Some
}

/// The number of lines that carry a prompt that can be stripped.
pub open spec fn qualifying_count(lines: Seq<Seq<char>>) -> nat {
    count_where(lines, |l: Seq<char>| qualifies(l))
}

/// The line without its prompt where it qualifies, else the line itself.
pub open spec fn strip_or_keep(line: Seq<char>) -> Seq<char> {
    match prompt_stripped_line(line) {
        Some(stripped) => stripped,
        None => line,
    }
}

/// Every line without its prompt where it qualifies.
pub open spec fn each_stripped(lines: Seq<Seq<char>>) -> Seq<Seq<char>> {
    lines.map_values(|l: Seq<char>| strip_or_keep(l))
}

/// The text with the prompt of every qualifying line removed, where the
/// qualifying lines are a majority of the lines that are not blank; else
/// nothing: no line is stripped without the majority.
pub open spec fn prompts_stripped(text: Seq<char>) -> Option<Seq<char>> {
    let lines = lines_of(text);
    if quorum_met(qualifying_count(lines), non_blank_count(lines)) {
        Some(joined(each_stripped(lines)))
    } else {
        None
    }
}

/// Whether `s` holds a character that marks it as a command.
pub fn contains_command_char(s: &Vec<char>) -> (r: bool)
    ensures
        r == has_command_chars(s@),
{
    let mut i: usize = 0;
    while i < s.len()
        invariant
            i <= s.len(),
            forall|j: int| 0 <= j < i ==> !is_command_char(#[trigger] s@[j]),
        decreases s.len() - i,
    {
        let c = s[i];
        if c == '-' || c == '.' || c == '/' || c == '~' || c == '$' || ('0' <= c && c <= '9') {
            return true;
        }
        i += 1;
    }
    false
}

/// Whether what follows a prompt marker reads as a command.
pub fn is_likely_prompt_command(content: &Vec<char>) -> (r: bool)
    ensures
        r == likely_prompt_command(content@),
{
    let t = trim_text(content);
    if t.len() == 0 {
        return false;
    }
    let last = t[t.len() - 1];
    if last == '.' || last == '?' || last == '!' {
        return false;
    }
    contains_command_char(&t) || starts_with_known_command(&t)
}

/// The line without its prompt marker, where it carries one that a
/// command follows.
pub fn strip_prompt_line(line: &Vec<char>) -> (r: Option<Vec<char>>)
    ensures
        r is Some == prompt_stripped_line(line@) is Some,
        r matches Some(stripped) ==> prompt_stripped_line(line@) == Some(stripped@),
{
    let n = skip_spaces(line, 0);
    assert(line@.skip(0) == line@);
    if n == line.len() {
        return None;
    }
    let first = line[n];
    if first != '#' && first != '$' {
        return None;
    }
    let m = skip_spaces(line, n + 1);
    let after = copy_range(line, m, line.len());
    proof {
        let rest = line@.skip(n as int);
        assert(rest.skip(1) == line@.skip(n + 1));
        assert(trimmed_start(rest.skip(1)) == after@);
    }
    if !is_likely_prompt_command(&after) {
        return None;
    }
    let mut out = copy_range(line, 0, n);
    append_text(&mut out, &after);
    Some(out)
}

/// The text without its prompts, where a majority of the lines that are
/// not blank carry one; `None` where they do not, and then nothing is
/// stripped. A text that comes back differs from the one that went in.
pub fn strip_prompt_prefixes(text: &Vec<char>) -> (r: Option<Vec<char>>)
    ensures
        r is Some == prompts_stripped(text@) is Some,
        r matches Some(stripped) ==> prompts_stripped(text@) == Some(stripped@) && stripped@
            != text@,
{
    let lines = split_lines(text);
    let non_blank = count_non_blank(&lines);
    let mut count: usize = 0;
    let mut rebuilt: Vec<Vec<char>> = Vec::new();
    let mut k: usize = 0;
    while k < lines.len()
        invariant
            k <= lines.len(),
            count <= k,
            count == qualifying_count(views(lines@).take(k as int)),
            views(rebuilt@) == each_stripped(views(lines@).take(k as int)),
        decreases lines.len() - k,
    {
        let ghost all = views(lines@);
        let ghost before = views(rebuilt@);
        proof {
            lemma_count_step(all, |l: Seq<char>| qualifies(l), k as int);
        }
        let next = match strip_prompt_line(&lines[k]) {
            Some(stripped) => {
                count += 1;
                stripped
            },
            None => copy_text(&lines[k]),
        };
        assert(views(rebuilt@.push(next)) == before.push(next@));
        rebuilt.push(next);
        k += 1;
    }
    assert(views(lines@).take(lines.len() as int) == views(lines@));
    if meets_quorum(count, non_blank) {
        proof {
            lemma_prompt_majority_vote(text@);
        }
        Some(join_lines(&rebuilt))
    } else {
        None
    }
}

/// A line that qualifies is not blank, and loses at least its marker.
pub proof fn lemma_qualifying_line(line: Seq<char>)
    requires
        qualifies(line),
    ensures
        !blank(line),
        strip_or_keep(line).len() < line.len(),
{
    lemma_trim_bounds(line);
    let n = leading_spaces(line) as int;
    let rest = line.skip(n);
    lemma_trim_bounds(rest.skip(1));
}

/// Stripping shortens no fewer lines than qualify and lengthens none.
pub proof fn lemma_stripped_total(lines: Seq<Seq<char>>)
    ensures
        each_stripped(lines).len() == lines.len(),
        total_len(each_stripped(lines)) + qualifying_count(lines) <= total_len(lines),
    decreases lines.len(),
{
    if lines.len() > 0 {
        let head = lines.drop_last();
        lemma_stripped_total(head);
        assert(each_stripped(lines).drop_last() == each_stripped(head));
        if qualifies(lines.last()) {
            lemma_qualifying_line(lines.last());
        }
    }
}

/// The majority vote of the prompt stripper. Among the lines that are not
/// blank, with exactly one such line the text is stripped exactly when
/// that line qualifies; with two or more, exactly when the qualifying
/// lines number at least half of them, rounded down, plus one. A text
/// that is stripped changes.
pub proof fn lemma_prompt_majority_vote(text: Seq<char>)
    ensures
        ({
            let lines = lines_of(text);
            let n = non_blank_count(lines);
            let q = qualifying_count(lines);
            &&& q <= n
            &&& n == 0 ==> prompts_stripped(text) is None
            &&& n == 1 ==> (prompts_stripped(text) is Some <==> q == 1)
            &&& n >= 2 ==> (prompts_stripped(text) is Some <==> q >= n / 2 + 1)
            &&& prompts_stripped(text) matches Some(stripped) ==> stripped.len() < text.len()
        }),
{
    let lines = lines_of(text);
    let n = non_blank_count(lines);
    let q = qualifying_count(lines);
    assert forall|l: Seq<char>| #[trigger] qualifies(l) implies !blank(l) by {
        lemma_qualifying_line(l);
    }
    lemma_count_monotone(lines, |l: Seq<char>| qualifies(l), |l: Seq<char>| !blank(l));
    lemma_quorum_is_strict_majority(q, n);
    if prompts_stripped(text) is Some {
        lemma_join_lines_of(text);
        lemma_stripped_total(lines);
        lemma_joined_len(lines);
        lemma_joined_len(each_stripped(lines));
    }
}

} // verus!
