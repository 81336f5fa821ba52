//! The URL repair: a single address that an editor wrapped over several
//! lines is put together again.
use crate::matcher::{is_match, regex_is_match, regex_replace_all, replace_all};
use crate::patterns::{patterns_compile, SPACES, VALID_URL};
use crate::search::{count_literal, occurrences, starts_with};
use crate::text::{lowercase, same_text, to_lowercase, trim_text, trimmed};
use vstd::prelude::*;

verus! {

/// The number of `http://` and `https://` schemes in a text in lower case.
pub open spec fn scheme_count(lower: Seq<char>) -> nat {
    occurrences(lower, "https://"@) + occurrences(lower, "http://"@)
}

/// Whether a text in lower case starts with a scheme.
pub open spec fn starts_with_scheme(lower: Seq<char>) -> bool {
    "http://"@.is_prefix_of(lower) || "https://"@.is_prefix_of(lower)
}

/// The text with all of its whitespace removed.
pub open spec fn whitespace_removed(text: Seq<char>) -> Seq<char> {
    regex_replace_all(SPACES@, text, ""@)
}

/// The address that the text holds, where the trimmed text holds exactly
/// one scheme, whatever its case, and starts with it, loses whitespace
/// when all of it is removed, and reads as one address without it; else
/// nothing.
pub open spec fn url_repaired(text: Seq<char>) -> Option<Seq<char>> {
    let t = trimmed(text);
    let lower = lowercase(t);
    let collapsed = whitespace_removed(t);
    if scheme_count(lower) == 1 && starts_with_scheme(lower) && collapsed != t && regex_is_match(
        VALID_URL@,
        collapsed,
    ) {
        Some(collapsed)
    } else {
        None
    }
}

/// Puts a wrapped address together again; `None` where the text is not
/// one address with whitespace in it.
pub fn repair_wrapped_url(text: &Vec<char>) -> (r: Option<Vec<char>>)
    requires
        patterns_compile(),
    ensures
        r is Some == url_repaired(text@) is Some,
        r matches Some(url) ==> url_repaired(text@) == Some(url@),
{
    let t = trim_text(text);
    let lower = to_lowercase(&t);
    let https = count_literal(&lower, "https://");
    let http = count_literal(&lower, "http://");
    if !(https == 1 && http == 0 || https == 0 && http == 1) {
        return None;
    }
    if !(starts_with(&lower, "http://") || starts_with(&lower, "https://")) {
        return None;
    }
    let collapsed = replace_all(SPACES, &t, "");
    if same_text(&collapsed, &t) {
        return None;
    }
    if is_match(VALID_URL, &collapsed) {
        Some(collapsed)
    } else {
        None
    }
}

} // verus!
