//! What a command line looks like: the words that commands start with and
//! the shape of a line that starts with one.
use crate::lines::views;
use crate::matcher::{is_match, regex_is_match};
use crate::patterns::{patterns_compile, COMMAND_LINE};
use crate::quorum::{count_where, lemma_count_step};
use crate::search::starts_with;
use crate::text::{first_token, first_word, lowercase, to_lowercase, trim_text, trimmed};
use vstd::prelude::*;

verus! {

/// The words and path starts that well-known commands begin with.
pub const KNOWN_PREFIXES: [&'static str; 40] = [
    "sudo",
    "./",
    "~/",
    "apt",
    "brew",
    "git",
    "python",
    "pip",
    "pnpm",
    "npm",
    "yarn",
    "cargo",
    "bundle",
    "rails",
    "go",
    "make",
    "xcodebuild",
    "swift",
    "kubectl",
    "docker",
    "podman",
    "aws",
    "gcloud",
    "az",
    "ls",
    "cd",
    "cat",
    "echo",
    "env",
    "export",
    "open",
    "node",
    "java",
    "ruby",
    "perl",
    "bash",
    "zsh",
    "fish",
    "pwsh",
    "sh",
];

/// Whether `token` starts with one of the known prefixes.
pub open spec fn starts_with_known_prefix(token: Seq<char>) -> bool {
    exists|k: int| 0 <= k < 40 && (#[trigger] KNOWN_PREFIXES@[k])@.is_prefix_of(token)
}

/// Whether the first word of `t`, in lower case, starts with one of the
/// known prefixes.
pub open spec fn names_known_command(t: Seq<char>) -> bool {
    starts_with_known_prefix(lowercase(first_token(t)))
}

/// Whether a line looks like a command: after trimming it is not empty,
/// and it either opens a `[[` test or does not end in a full stop and
/// starts with a command word.
pub open spec fn likely_command_line(line: Seq<char>) -> bool {
    let t = trimmed(line);
    &&& t.len() > 0
    &&& ("[["@.is_prefix_of(t) || (t.last() != '.' && regex_is_match(COMMAND_LINE@, t)))
}

/// Whether a line is not blank and its first word names a known command.
pub open spec fn known_command_line(line: Seq<char>) -> bool {
    let t = trimmed(line);
    t.len() > 0 && names_known_command(t)
}

/// Whether any of the lines names a known command.
pub open spec fn any_known_prefix(lines: Seq<Seq<char>>) -> bool {
    exists|i: int| 0 <= i < lines.len() && known_command_line(#[trigger] lines[i])
}

/// The number of lines that look like commands.
pub open spec fn command_lines(lines: Seq<Seq<char>>) -> nat {
    count_where(lines, |l: Seq<char>| likely_command_line(l))
}

/// Whether `token` starts with one of the known prefixes.
pub fn has_known_prefix(token: &Vec<char>) -> (r: bool)
    ensures
        r == starts_with_known_prefix(token@),
{
    let mut k: usize = 0;
    while k < 40
        invariant
            k <= 40,
            forall|j: int| 0 <= j < k ==> !(#[trigger] KNOWN_PREFIXES@[j])@.is_prefix_of(token@),
        decreases 40 - k,
    {
        if starts_with(token, KNOWN_PREFIXES[k]) {
            return true;
        }
        k += 1;
    }
    false
}

/// Whether the first word of `t`, in lower case, starts with one of the
/// known prefixes.
pub fn starts_with_known_command(t: &Vec<char>) -> (r: bool)
    ensures
        r == names_known_command(t@),
{
    let word = first_word(t);
    let lower = to_lowercase(&word);
    has_known_prefix(&lower)
}

/// Whether a line looks like a command.
pub fn is_likely_command_line(line: &Vec<char>) -> (r: bool)
    requires
        patterns_compile(),
    ensures
        r == likely_command_line(line@),
{
    let t = trim_text(line);
    if t.len() == 0 {
        return false;
    }
    if starts_with(&t, "[[") {
        return true;
    }
    if t[t.len() - 1] == '.' {
        return false;
    }
    is_match(COMMAND_LINE, &t)
}

/// Whether any of the lines names a known command.
pub fn contains_known_command_prefix(lines: &Vec<Vec<char>>) -> (r: bool)
    ensures
        r == any_known_prefix(views(lines@)),
{
    let mut i: usize = 0;
    while i < lines.len()
        invariant
            i <= lines.len(),
            forall|j: int| 0 <= j < i ==> !known_command_line(#[trigger] views(lines@)[j]),
        decreases lines.len() - i,
    {
        let t = trim_text(&lines[i]);
        assert(views(lines@)[i as int] == lines@[i as int]@);
        if t.len() > 0 && starts_with_known_command(&t) {
            return true;
        }
        i += 1;
    }
    false
}

/// The number of lines that look like commands.
pub fn command_line_count(lines: &Vec<Vec<char>>) -> (n: usize)
    requires
        patterns_compile(),
    ensures
        n == command_lines(views(lines@)),
        n <= lines.len(),
{
    let mut n: usize = 0;
    let mut k: usize = 0;
    while k < lines.len()
        invariant
            patterns_compile(),
            k <= lines.len(),
            n <= k,
            n == command_lines(views(lines@).take(k as int)),
        decreases lines.len() - k,
    {
        proof {
            lemma_count_step(views(lines@), |l: Seq<char>| likely_command_line(l), k as int);
        }
        if is_likely_command_line(&lines[k]) {
            n += 1;
        }
        k += 1;
    }
    assert(views(lines@).take(lines.len() as int) == views(lines@));
    n
}

} // verus!
