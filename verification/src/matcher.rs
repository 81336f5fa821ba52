//! The calls into the `regex` crate. What a pattern matches is not stated
//! here: each result has a name, and the rest of the library is proved
//! against those names.
use crate::text::{to_chars, to_text};
use regex::Regex;
use vstd::prelude::*;

verus! {

/// Whether `regex::Regex::new` accepts `pattern`.
pub uninterp spec fn regex_compiles(pattern: Seq<char>) -> bool;

/// What `regex::Regex::is_match` returns for the compiled `pattern` on
/// `haystack`.
pub uninterp spec fn regex_is_match(pattern: Seq<char>, haystack: Seq<char>) -> bool;

/// What `regex::Regex::replace` returns for the compiled `pattern` on
/// `haystack` with the replacement string `rep`.
pub uninterp spec fn regex_replace(pattern: Seq<char>, haystack: Seq<char>, rep: Seq<char>) -> Seq<
    char,
>;

/// What `regex::Regex::replace_all` returns for the compiled `pattern` on
/// `haystack` with the replacement string `rep`.
pub uninterp spec fn regex_replace_all(
    pattern: Seq<char>,
    haystack: Seq<char>,
    rep: Seq<char>,
) -> Seq<char>;

/// `regex::Regex::new`: reports whether the pattern compiles. Nothing is
/// claimed about which patterns do.
#[verifier::external_body]
pub(crate) fn compiles(pattern: &str) -> (ok: bool)
    ensures
        ok == regex_compiles(pattern@),
{
    Regex::new(pattern).is_ok()
}

/// `regex::Regex::is_match` on a pattern that compiles: the result is the
/// one that the pattern and the haystack determine.
#[verifier::external_body]
fn regex_search(pattern: &str, haystack: &str) -> (found: bool)
    requires
        regex_compiles(pattern@),
    ensures
        found == regex_is_match(pattern@, haystack@),
{
    Regex::new(pattern).unwrap().is_match(haystack)
}

/// `regex::Regex::replace` on a pattern that compiles: the result is the
/// one that the pattern, the haystack and the replacement string
/// determine.
#[verifier::external_body]
fn regex_substitute(pattern: &str, haystack: &str, rep: &str) -> (r: String)
    requires
        regex_compiles(pattern@),
    ensures
        r@ == regex_replace(pattern@, haystack@, rep@),
{
    Regex::new(pattern).unwrap().replace(haystack, rep).into_owned()
}

/// `regex::Regex::replace_all` on a pattern that compiles: the result is
/// the one that the pattern, the haystack and the replacement string
/// determine.
#[verifier::external_body]
fn regex_substitute_all(pattern: &str, haystack: &str, rep: &str) -> (r: String)
    requires
        regex_compiles(pattern@),
    ensures
        r@ == regex_replace_all(pattern@, haystack@, rep@),
{
    Regex::new(pattern).unwrap().replace_all(haystack, rep).into_owned()
}

/// Whether the pattern matches anywhere in the text.
pub(crate) fn is_match(pattern: &str, haystack: &Vec<char>) -> (found: bool)
    requires
        regex_compiles(pattern@),
    ensures
        found == regex_is_match(pattern@, haystack@),
{
    let hay = to_text(haystack);
    regex_search(pattern, hay.as_str())
}

/// The text with the leftmost match of the pattern replaced.
pub(crate) fn replace_first(pattern: &str, haystack: &Vec<char>, rep: &str) -> (r: Vec<char>)
    requires
        regex_compiles(pattern@),
    ensures
        r@ == regex_replace(pattern@, haystack@, rep@),
{
    let hay = to_text(haystack);
    let out = regex_substitute(pattern, hay.as_str(), rep);
    to_chars(out.as_str())
}

/// The text with every match of the pattern replaced.
pub(crate) fn replace_all(pattern: &str, haystack: &Vec<char>, rep: &str) -> (r: Vec<char>)
    requires
        regex_compiles(pattern@),
    ensures
        r@ == regex_replace_all(pattern@, haystack@, rep@),
{
    let hay = to_text(haystack);
    let out = regex_substitute_all(pattern, hay.as_str(), rep);
    to_chars(out.as_str())
}

} // verus!
