//! The lines of a text: splitting at line feeds, joining again, and the
//! one form of line end that the stages work on.
use crate::text::{append_text, copy_range};
use vstd::prelude::*;

verus! {

/// The index of the first line feed in `s`, or the length of `s` when it
/// holds none.
pub open spec fn first_newline(s: Seq<char>) -> nat
    decreases s.len(),
{
    if s.len() == 0 || s[0] == '\n' {
        0
    } else {
        1 + first_newline(s.skip(1))
    }
}

/// The lines of `s`: the segments between its line feeds, of which there is
/// always one more than there are line feeds.
pub open spec fn lines_of(s: Seq<char>) -> Seq<Seq<char>>
    decreases s.len(),
{
    let i = first_newline(s) as int;
    if i >= s.len() {
        seq![s]
    } else {
        seq![s.take(i)] + lines_of(s.skip(i + 1))
    }
}

/// The lines put together again, with one line feed between neighbours.
pub open spec fn joined(lines: Seq<Seq<char>>) -> Seq<char>
    decreases lines.len(),
{
    if lines.len() == 0 {
        seq![]
    } else if lines.len() == 1 {
        lines[0]
    } else {
        joined(lines.drop_last()) + seq!['\n'] + lines.last()
    }
}

/// What each line of a vector of lines holds.
pub open spec fn views(lines: Seq<Vec<char>>) -> Seq<Seq<char>> {
    lines.map_values(|l: Vec<char>| l@)
}

/// `s` with every line end as one line feed: a carriage return with the
/// line feed after it, and a carriage return alone, each become one line
/// feed.
pub open spec fn normalized(s: Seq<char>) -> Seq<char>
    decreases s.len(),
{
    if s.len() == 0 {
        s
    } else if s[0] == '\r' {
        if s.len() > 1 && s[1] == '\n' {
            seq!['\n'] + normalized(s.skip(2))
        } else {
            seq!['\n'] + normalized(s.skip(1))
        }
    } else {
        seq![s[0]] + normalized(s.skip(1))
    }
}

/// The characters of all lines together.
pub open spec fn total_len(lines: Seq<Seq<char>>) -> nat
    decreases lines.len(),
{
    if lines.len() == 0 {
        0
    } else {
        total_len(lines.drop_last()) + lines.last().len()
    }
}

/// `first_newline(s)` is the one index that ends a prefix free of line feeds.
pub proof fn lemma_first_newline(s: Seq<char>, k: int)
    requires
        0 <= k <= s.len(),
        forall|i: int| 0 <= i < k ==> #[trigger] s[i] != '\n',
        k < s.len() ==> s[k] == '\n',
    ensures
        first_newline(s) == k,
    decreases k,
{
    if k > 0 {
        lemma_first_newline(s.skip(1), k - 1);
    }
}

/// Where the first line feed of `s` stands, if it has one.
pub proof fn lemma_first_newline_bounds(s: Seq<char>)
    ensures
        first_newline(s) <= s.len(),
        forall|i: int| 0 <= i < first_newline(s) ==> #[trigger] s[i] != '\n',
        first_newline(s) < s.len() ==> s[first_newline(s) as int] == '\n',
    decreases s.len(),
{
    if !(s.len() == 0 || s[0] == '\n') {
        let rest = s.skip(1);
        lemma_first_newline_bounds(rest);
        assert forall|i: int| 0 <= i < first_newline(s) implies #[trigger] s[i] != '\n' by {
            if i > 0 {
                assert(s[i] == rest[i - 1]);
            }
        }
    }
}

/// No carriage return is left after normalising, and no character is
/// added.
pub proof fn lemma_normalized_has_no_cr(s: Seq<char>)
    ensures
        !normalized(s).contains('\r'),
        normalized(s).len() <= s.len(),
    decreases s.len(),
{
    if s.len() > 0 {
        let step: int = if s[0] == '\r' && s.len() > 1 && s[1] == '\n' {
            2
        } else {
            1
        };
        lemma_normalized_has_no_cr(s.skip(step));
    }
}

/// A text without a carriage return is its own normal form, so that
/// normalising twice is normalising once.
pub proof fn lemma_normalized_fixed(s: Seq<char>)
    requires
        !s.contains('\r'),
    ensures
        normalized(s) == s,
    decreases s.len(),
{
    if s.len() > 0 {
        lemma_normalized_fixed(s.skip(1));
    }
}

/// Joined lines hold their characters and one line feed between
/// neighbours.
pub proof fn lemma_joined_len(lines: Seq<Seq<char>>)
    requires
        lines.len() > 0,
    ensures
        joined(lines).len() == total_len(lines) + lines.len() - 1,
    decreases lines.len(),
{
    if lines.len() > 1 {
        lemma_joined_len(lines.drop_last());
    } else {
        assert(total_len(lines.drop_last()) == 0);
    }
}

/// Joining a first line and the lines after it puts one line feed between
/// them.
pub proof fn lemma_joined_first(first: Seq<char>, rest: Seq<Seq<char>>)
    requires
        rest.len() > 0,
    ensures
        joined(seq![first] + rest) == first + seq!['\n'] + joined(rest),
    decreases rest.len(),
{
    let all = seq![first] + rest;
    if rest.len() == 1 {
        assert(all.drop_last() == seq![first]);
        assert(joined(all) == joined(seq![first]) + seq!['\n'] + rest[0]);
    } else {
        lemma_joined_first(first, rest.drop_last());
        assert(all.drop_last() == seq![first] + rest.drop_last());
    }
}

/// The lines of a text, joined, are the text.
pub proof fn lemma_join_lines_of(text: Seq<char>)
    ensures
        lines_of(text).len() > 0,
        joined(lines_of(text)) == text,
    decreases text.len(),
{
    lemma_first_newline_bounds(text);
    let i = first_newline(text) as int;
    if i < text.len() {
        let rest = text.skip(i + 1);
        lemma_join_lines_of(rest);
        lemma_joined_first(text.take(i), lines_of(rest));
    }
}

/// Every line end of `s` as one line feed.
pub fn normalize_newlines(s: &Vec<char>) -> (r: Vec<char>)
    ensures
        r@ == normalized(s@),
        !r@.contains('\r'),
{
    proof {
        lemma_normalized_has_no_cr(s@);
    }
    let mut r: Vec<char> = Vec::new();
    let mut i: usize = 0;
    assert(s@.skip(0) == s@);
    while i < s.len()
        invariant
            i <= s.len(),
            normalized(s@) == r@ + normalized(s@.skip(i as int)),
        decreases s.len() - i,
    {
        let c = s[i];
        proof {
            let rest = s@.skip(i as int);
            assert(rest.skip(1) == s@.skip(i + 1));
            if i + 1 < s.len() {
                assert(rest.skip(2) == s@.skip(i + 2));
            }
        }
        if c == '\r' {
            r.push('\n');
            if i + 1 < s.len() && s[i + 1] == '\n' {
                i += 2;
            } else {
                i += 1;
            }
        } else {
            r.push(c);
            i += 1;
        }
    }
    r
}

/// Whether `s` has more than `limit` lines.
pub fn exceeds_line_limit(s: &Vec<char>, limit: usize) -> (r: bool)
    ensures
        r == (lines_of(s@).len() > limit),
{
    let mut count: usize = 0;
    let mut i: usize = 0;
    let ghost mut start: int = 0;
    assert(s@.skip(0) == s@);
    while i < s.len()
        invariant
            0 <= start <= i <= s.len(),
            count <= start,
            forall|k: int| start <= k < i ==> s@[k] != '\n',
            lines_of(s@).len() == count + lines_of(s@.skip(start)).len(),
        decreases s.len() - i,
    {
        if s[i] == '\n' {
            proof {
                let rest = s@.skip(start);
                lemma_first_newline(rest, i - start);
                assert(rest.skip(i - start + 1) == s@.skip(i + 1));
                start = i + 1;
            }
            count += 1;
        }
        i += 1;
    }
    proof {
        lemma_first_newline(s@.skip(start), s.len() - start);
    }
    count >= limit
}

/// The lines of `s`.
pub fn split_lines(s: &Vec<char>) -> (lines: Vec<Vec<char>>)
    ensures
        views(lines@) == lines_of(s@),
{
    let mut lines: Vec<Vec<char>> = Vec::new();
    let mut start: usize = 0;
    let mut i: usize = 0;
    assert(s@.skip(0) == s@);
    while i < s.len()
        invariant
            0 <= start <= i <= s.len(),
            forall|k: int| start <= k < i ==> s@[k] != '\n',
            lines_of(s@) == views(lines@) + lines_of(s@.skip(start as int)),
        decreases s.len() - i,
    {
        if s[i] == '\n' {
            let line = copy_range(s, start, i);
            proof {
                let rest = s@.skip(start as int);
                lemma_first_newline(rest, i - start);
                assert(rest.skip(i - start + 1) == s@.skip(i + 1));
                assert(rest.take(i - start) == line@);
            }
            lines.push(line);
            start = i + 1;
        }
        i += 1;
    }
    let line = copy_range(s, start, i);
    proof {
        lemma_first_newline(s@.skip(start as int), s.len() - start);
    }
    lines.push(line);
    lines
}

/// The lines put together again, with one line feed between neighbours.
pub fn join_lines(lines: &Vec<Vec<char>>) -> (r: Vec<char>)
    ensures
        r@ == joined(views(lines@)),
{
    let mut r: Vec<char> = Vec::new();
    let mut i: usize = 0;
    while i < lines.len()
        invariant
            i <= lines.len(),
            r@ == joined(views(lines@).take(i as int)),
        decreases lines.len() - i,
    {
        if i > 0 {
            r.push('\n');
        }
        append_text(&mut r, &lines[i]);
        proof {
            let all = views(lines@);
            assert(all.take(i + 1).drop_last() == all.take(i as int));
        }
        i += 1;
    }
    assert(views(lines@).take(lines.len() as int) == views(lines@));
    r
}

} // verus!
