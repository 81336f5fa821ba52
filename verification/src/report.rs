//! What a command-line front end decides from its flags and from the
//! result of a run: the settings of the run, the text to print, the diff
//! to show and the exit code.
use crate::text::to_chars;
use crate::types::{Aggressiveness, Options, TrimResult};
use similar::TextDiff;
use vstd::prelude::*;
use vstd::string::{StrSliceExecFns, StringExecFns};

verus! {

/// The exit code of a run that changed the text, or that was forced.
pub const EXIT_OK: u8 = 0;

/// The exit code of a run that left the text as it was and was not
/// forced.
pub const EXIT_UNCHANGED: u8 = 2;

/// The exit code of a run whose result could not be encoded.
pub const EXIT_ENCODE_FAILURE: u8 = 3;

/// The lines of context around each change of a diff.
pub const DIFF_CONTEXT: usize = 3;

/// The name that a diff gives to the input.
pub const DIFF_OLD_NAME: &'static str = "before";

/// The name that a diff gives to the output.
pub const DIFF_NEW_NAME: &'static str = "after";

/// What `similar` renders as the unified diff, by lines, of `old` and
/// `new`, with `radius` lines of context and the two names in its header.
pub uninterp spec fn unified_diff_text(
    old: Seq<char>,
    new: Seq<char>,
    radius: nat,
    old_name: Seq<char>,
    new_name: Seq<char>,
) -> Seq<char>;

/// Whether two texts are short enough for a diff: `similar` numbers the
/// distinct lines of both texts together in 32 bits, and no text has more
/// lines than characters.
pub open spec fn diffable(old: Seq<char>, new: Seq<char>) -> bool {
    old.len() + new.len() <= u32::MAX
}

/// `similar::TextDiff::from_lines`, rendered through `unified_diff` with
/// the given context radius and header: the text of the diff, which these
/// five values determine. `similar` doubles the radius when it groups the
/// changes and numbers the distinct lines in 32 bits, so the radius and
/// the texts must leave room for both.
#[verifier::external_body]
pub(crate) fn unified_diff(
    old: &str,
    new: &str,
    radius: usize,
    old_name: &str,
    new_name: &str,
) -> (r: String)
    requires
        radius <= usize::MAX / 2,
        diffable(old@, new@),
    ensures
        r@ == unified_diff_text(old@, new@, radius as nat, old_name@, new_name@),
{
    TextDiff::from_lines(old, new).unified_diff().context_radius(radius).header(
        old_name,
        new_name,
    ).to_string()
}

/// The aggressiveness of a run: `High` where it is forced, else the one
/// that was chosen.
pub open spec fn effective_level(force: bool, chosen: Aggressiveness) -> Aggressiveness {
    if force {
        Aggressiveness::High
    } else {
        chosen
    }
}

/// The exit code for the result of a run: `EXIT_OK` where the text
/// changed or the run was forced, else `EXIT_UNCHANGED`.
pub open spec fn exit_code_for(changed: bool, force: bool) -> u8 {
    if changed || force {
        EXIT_OK
    } else {
        EXIT_UNCHANGED
    }
}

/// The text as it is printed: with a line feed at its end, added where
/// the text does not end in one.
pub open spec fn printed(output: Seq<char>) -> Seq<char> {
    if output.len() > 0 && output.last() == '\n' {
        output
    } else {
        output.push('\n')
    }
}

/// The aggressiveness of a run: forcing pins it to `High`.
pub fn effective_aggressiveness(force: bool, chosen: Aggressiveness) -> (level: Aggressiveness)
    ensures
        level == effective_level(force, chosen),
{
    if force {
        Aggressiveness::High
    } else {
        chosen
    }
}

/// The options of a run from the flags of the command line. The request
/// to remove box drawing switches the box-drawing stripper on whatever
/// `strip_box_chars` says.
pub fn options_from(
    keep_blank_lines: bool,
    strip_box_chars: bool,
    remove_box_drawing: bool,
    trim_prompts: bool,
    max_lines: usize,
) -> (opts: Options)
    ensures
        opts.keep_blank_lines == keep_blank_lines,
        opts.strip_box_chars == (remove_box_drawing || strip_box_chars),
        opts.trim_prompts == trim_prompts,
        opts.max_lines == max_lines,
{
    Options {
        keep_blank_lines,
        strip_box_chars: if remove_box_drawing {
            true
        } else {
            strip_box_chars
        },
        trim_prompts,
        max_lines,
    }
}

/// The exit code for the result of a run.
pub fn exit_code(changed: bool, force: bool) -> (code: u8)
    ensures
        code == exit_code_for(changed, force),
        code == EXIT_OK || code == EXIT_UNCHANGED,
{
    if changed || force {
        EXIT_OK
    } else {
        EXIT_UNCHANGED
    }
}

/// The text as it is printed: with a line feed at its end.
pub fn printed_text(output: &str) -> (r: String)
    ensures
        r@ == printed(output@),
{
    let chars = to_chars(output);
    let mut r = String::from_str(output);
    if chars.len() == 0 || chars[chars.len() - 1] != '\n' {
        r.push('\n');
    }
    r
}

/// Whether the two texts are short enough for `diff_report`.
pub fn can_diff(old: &str, new: &str) -> (r: bool)
    ensures
        r == diffable(old@, new@),
{
    let a = old.unicode_len();
    let b = new.unicode_len();
    a <= 0xffff_ffff && b <= 0xffff_ffff - a
}

/// The unified diff between the input of a run and its output, where the
/// run changed the text; `None` where it did not. The two texts must be
/// short enough for a diff, which `can_diff` tests.
pub fn diff_report(input: &str, result: &TrimResult) -> (r: Option<String>)
    requires
        diffable(input@, result.output@),
    ensures
        r is Some == result.changed,
        r matches Some(diff) ==> diff@ == unified_diff_text(
            input@,
            result.output@,
            DIFF_CONTEXT as nat,
            DIFF_OLD_NAME@,
            DIFF_NEW_NAME@,
        ),
{
    if !result.changed {
        return None;
    }
    Some(unified_diff(input, result.output.as_str(), DIFF_CONTEXT, DIFF_OLD_NAME, DIFF_NEW_NAME))
}

} // verus!
