//! Search for a literal in a text, and its replacement.
use crate::text::{append_text, copy_range, to_chars};
use vstd::prelude::*;

verus! {

/// Whether `pat` stands in `s` at index `i`.
pub open spec fn occurs_at(s: Seq<char>, pat: Seq<char>, i: int) -> bool {
    0 <= i && i + pat.len() <= s.len() && s.subrange(i, i + pat.len()) == pat
}

/// Whether `pat` stands anywhere in `s`.
pub open spec fn contains_text(s: Seq<char>, pat: Seq<char>) -> bool {
    exists|i: int| occurs_at(s, pat, i)
}

/// The number of occurrences of `pat` in `s`, counted from the left without
/// overlap. An empty `pat` counts as absent.
pub open spec fn occurrences(s: Seq<char>, pat: Seq<char>) -> nat
    decreases s.len(),
{
    if pat.len() == 0 || s.len() < pat.len() {
        0
    } else if occurs_at(s, pat, 0) {
        1 + occurrences(s.skip(pat.len() as int), pat)
    } else {
        occurrences(s.skip(1), pat)
    }
}

/// `s` with each occurrence of `pat`, taken from the left without overlap,
/// replaced by `rep`. An empty `pat` leaves `s` as it is.
pub open spec fn replaced(s: Seq<char>, pat: Seq<char>, rep: Seq<char>) -> Seq<char>
    decreases s.len(),
{
    if pat.len() == 0 || s.len() < pat.len() {
        s
    } else if occurs_at(s, pat, 0) {
        rep + replaced(s.skip(pat.len() as int), pat, rep)
    } else {
        seq![s[0]] + replaced(s.skip(1), pat, rep)
    }
}

/// Whether `pat` stands in `s` at index `at`.
pub fn matches_at(s: &Vec<char>, at: usize, pat: &Vec<char>) -> (r: bool)
    requires
        at <= s.len(),
    ensures
        r == occurs_at(s@, pat@, at as int),
{
    if pat.len() > s.len() - at {
        return false;
    }
    let mut k: usize = 0;
    while k < pat.len()
        invariant
            k <= pat.len(),
            at + pat.len() <= s.len(),
            s@.subrange(at as int, at + k) == pat@.take(k as int),
        decreases pat.len() - k,
    {
        if s[at + k] != pat[k] {
            assert(s@.subrange(at as int, at + pat.len())[k as int] != pat@[k as int]);
            return false;
        }
        k += 1;
    }
    assert(pat@.take(pat.len() as int) == pat@);
    true
}

/// Whether `s` starts with the literal `pat`.
pub fn starts_with(s: &Vec<char>, pat: &str) -> (r: bool)
    ensures
        r == pat@.is_prefix_of(s@),
{
    let p = to_chars(pat);
    matches_at(s, 0, &p)
}

/// Whether the literal `pat` stands anywhere in `s`.
pub fn contains_literal(s: &Vec<char>, pat: &str) -> (r: bool)
    ensures
        r == contains_text(s@, pat@),
{
    let p = to_chars(pat);
    let mut i: usize = 0;
    while i <= s.len()
        invariant
            i <= s.len() + 1,
            p@ == pat@,
            forall|k: int| 0 <= k < i ==> !occurs_at(s@, pat@, k),
        decreases s.len() + 1 - i,
    {
        if matches_at(s, i, &p) {
            return true;
        }
        if i == s.len() {
            return false;
        }
        i += 1;
    }
    false
}

/// The number of occurrences of the literal `pat` in `s`, counted from the
/// left without overlap.
pub fn count_literal(s: &Vec<char>, pat: &str) -> (r: usize)
    ensures
        r == occurrences(s@, pat@),
{
    let p = to_chars(pat);
    let mut count: usize = 0;
    let mut i: usize = 0;
    if p.len() == 0 {
        return 0;
    }
    assert(s@.skip(0) == s@);
    while s.len() - i >= p.len()
        invariant
            i <= s.len(),
            count <= i,
            p@ == pat@,
            p.len() > 0,
            occurrences(s@, pat@) == count + occurrences(s@.skip(i as int), pat@),
        decreases s.len() - i,
    {
        let hit = matches_at(s, i, &p);
        proof {
            let rest = s@.skip(i as int);
            assert(rest.subrange(0, p.len() as int) == s@.subrange(i as int, i + p.len()));
            assert(rest.skip(p.len() as int) == s@.skip(i + p.len()));
            assert(rest.skip(1) == s@.skip(i + 1));
        }
        if hit {
            count += 1;
            i += p.len();
        } else {
            i += 1;
        }
    }
    count
}

/// `s` with each occurrence of the literal `pat`, taken from the left
/// without overlap, replaced by the literal `rep`.
pub fn replace_literal(s: &Vec<char>, pat: &str, rep: &str) -> (r: Vec<char>)
    ensures
        r@ == replaced(s@, pat@, rep@),
{
    let p = to_chars(pat);
    let with = to_chars(rep);
    let mut out: Vec<char> = Vec::new();
    let mut i: usize = 0;
    assert(s@.skip(0) == s@);
    if p.len() > 0 {
        while s.len() - i >= p.len()
            invariant
                i <= s.len(),
                p@ == pat@,
                with@ == rep@,
                p.len() > 0,
                replaced(s@, pat@, rep@) == out@ + replaced(s@.skip(i as int), pat@, rep@),
            decreases s.len() - i,
        {
            let hit = matches_at(s, i, &p);
            proof {
                let rest = s@.skip(i as int);
                assert(rest.subrange(0, p.len() as int) == s@.subrange(i as int, i + p.len()));
                assert(rest.skip(p.len() as int) == s@.skip(i + p.len()));
                assert(rest.skip(1) == s@.skip(i + 1));
            }
            if hit {
                append_text(&mut out, &with);
                i += p.len();
            } else {
                out.push(s[i]);
                i += 1;
            }
        }
    }
    let tail = copy_range(s, i, s.len());
    append_text(&mut out, &tail);
    out
}

} // verus!
