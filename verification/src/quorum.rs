//! The majority vote that gates the strippers and the list test: an edit
//! is made only where more than half of the lines that are not blank ask
//! for it.
use crate::lines::views;
use crate::text::{blank, is_blank};
use vstd::prelude::*;

verus! {

/// The number of lines that `p` holds of.
pub open spec fn count_where(lines: Seq<Seq<char>>, p: spec_fn(Seq<char>) -> bool) -> nat
    decreases lines.len(),
{
    if lines.len() == 0 {
        0
    } else {
        count_where(lines.drop_last(), p) + if p(lines.last()) {
            1nat
        } else {
            0nat
        }
    }
}

/// The number of lines that are not blank.
pub open spec fn non_blank_count(lines: Seq<Seq<char>>) -> nat {
    count_where(lines, |l: Seq<char>| !blank(l))
}

/// The least number of lines that is more than half of `n`.
pub open spec fn quorum(n: nat) -> nat {
    n / 2 + 1
}

/// Whether `qualifying` lines out of `non_blank` are a majority. No line
/// at all is no majority.
pub open spec fn quorum_met(qualifying: nat, non_blank: nat) -> bool {
    non_blank > 0 && qualifying >= quorum(non_blank)
}

/// A quorum is met exactly by more than half of the lines.
pub proof fn lemma_quorum_is_strict_majority(qualifying: nat, non_blank: nat)
    requires
        qualifying <= non_blank,
    ensures
        quorum_met(qualifying, non_blank) <==> 2 * qualifying > non_blank,
        non_blank == 1 ==> (quorum_met(qualifying, non_blank) <==> qualifying == 1),
{
}

/// Where `p` holds only of lines of which `q` holds, `p` counts no more
/// lines than `q`.
pub proof fn lemma_count_monotone(
    lines: Seq<Seq<char>>,
    p: spec_fn(Seq<char>) -> bool,
    q: spec_fn(Seq<char>) -> bool,
)
    requires
        forall|l: Seq<char>| #[trigger] p(l) ==> q(l),
    ensures
        count_where(lines, p) <= count_where(lines, q),
    decreases lines.len(),
{
    if lines.len() > 0 {
        lemma_count_monotone(lines.drop_last(), p, q);
    }
}

/// One more line is counted for the next line of which `p` holds.
pub proof fn lemma_count_step(lines: Seq<Seq<char>>, p: spec_fn(Seq<char>) -> bool, k: int)
    requires
        0 <= k < lines.len(),
    ensures
        count_where(lines.take(k + 1), p) == count_where(lines.take(k), p) + if p(lines[k]) {
            1nat
        } else {
            0nat
        },
{
    assert(lines.take(k + 1).drop_last() == lines.take(k));
}

/// Whether `qualifying` lines out of `non_blank` are a majority.
pub fn meets_quorum(qualifying: usize, non_blank: usize) -> (r: bool)
    ensures
        r == quorum_met(qualifying as nat, non_blank as nat),
{
    non_blank > 0 && qualifying >= non_blank / 2 + 1
}

/// The number of lines that are not blank.
pub fn count_non_blank(lines: &Vec<Vec<char>>) -> (n: usize)
    ensures
        n == non_blank_count(views(lines@)),
        n <= lines.len(),
{
    let mut n: usize = 0;
    let mut k: usize = 0;
    while k < lines.len()
        invariant
            k <= lines.len(),
            n <= k,
            n == non_blank_count(views(lines@).take(k as int)),
        decreases lines.len() - k,
    {
        proof {
            lemma_count_step(views(lines@), |l: Seq<char>| !blank(l), k as int);
        }
        if !is_blank(&lines[k]) {
            n += 1;
        }
        k += 1;
    }
    assert(views(lines@).take(lines.len() as int) == views(lines@));
    n
}

} // verus!
