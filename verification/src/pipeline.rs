//! The run: the stages in their fixed order, and the result put together
//! from what they did.
use crate::classify::{command_flattened, transform_if_command};
use crate::fingerprint::{fingerprint, fingerprint_of};
use crate::gutter::{gutters_stripped, strip_box_drawing_characters};
use crate::lines::{
    exceeds_line_limit, lemma_first_newline, lemma_normalized_fixed, lines_of, normalize_newlines,
    normalized,
};
use crate::patterns::{check_patterns, patterns_compile};
use crate::prompt::{prompts_stripped, strip_prompt_prefixes};
use crate::text::{copy_text, same_text, to_chars, to_text};
use crate::types::{Aggressiveness, Options, TrimOutcome, TrimReason, TrimResult};
use crate::url::{repair_wrapped_url, url_repaired};
use vstd::prelude::*;
use vstd::string::StringExecFns;

verus! {

/// The one reason of a run that looked at the text: none where nothing
/// changed; else the first that applies of a merged backslash, removed
/// gutters and stripped prompts, and `Flattened` where none of them does.
pub open spec fn reason_for(
    changed: bool,
    merged_backslash: bool,
    box_stripped: bool,
    prompt_stripped: bool,
) -> Option<TrimReason> {
    if !changed {
        None
    } else if merged_backslash {
        Some(TrimReason::BackslashMerged)
    } else if box_stripped {
        Some(TrimReason::BoxCharsRemoved)
    } else if prompt_stripped {
        Some(TrimReason::PromptStripped)
    } else {
        Some(TrimReason::Flattened)
    }
}

/// What the box-drawing stripper makes of the text, where it is on.
pub open spec fn box_stage(text: Seq<char>, opts: Options) -> Option<Seq<char>> {
    if opts.strip_box_chars {
        gutters_stripped(text)
    } else {
        None
    }
}

/// What the prompt stripper makes of the text, where it is on.
pub open spec fn prompt_stage(text: Seq<char>, opts: Options) -> Option<Seq<char>> {
    if opts.trim_prompts {
        prompts_stripped(text)
    } else {
        None
    }
}

/// The text that a stage hands on: its own where it acted, else the one
/// it was given.
pub open spec fn handed_on(stage: Option<Seq<char>>, text: Seq<char>) -> Seq<char> {
    match stage {
        Some(changed) => changed,
        None => text,
    }
}

/// Whether the text, with its line ends normalised, has more lines than
/// the options allow.
pub open spec fn too_large(input: Seq<char>, opts: Options) -> bool {
    lines_of(normalized(input)).len() > opts.max_lines
}

/// What a run returns for an input. A text that is too large comes back
/// as it came, with the reason `SkippedTooLarge`. Any other text goes, in
/// this order, through the box-drawing stripper, the prompt stripper,
/// the URL repair and the command classifier with its flattener, each
/// working on what the one before handed on.
pub open spec fn trim_outcome(
    input: Seq<char>,
    aggressiveness: Aggressiveness,
    opts: Options,
) -> TrimOutcome {
    let start = normalized(input);
    let hash = fingerprint_of(input);
    if too_large(input, opts) {
        TrimOutcome {
            output: input,
            changed: false,
            reason: Some(TrimReason::SkippedTooLarge),
            hash,
        }
    } else {
        let boxed = box_stage(start, opts);
        let unboxed = handed_on(boxed, start);
        let prompted = prompt_stage(unboxed, opts);
        let unprompted = handed_on(prompted, unboxed);
        let repaired = handed_on(url_repaired(unprompted), unprompted);
        let flat = command_flattened(repaired, aggressiveness, opts.keep_blank_lines);
        let output = match flat {
            Some(f) => f.0,
            None => repaired,
        };
        let merged_backslash = match flat {
            Some(f) => f.1,
            None => false,
        };
        let changed = output != start;
        TrimOutcome {
            output,
            changed,
            reason: reason_for(changed, merged_backslash, boxed is Some, prompted is Some),
            hash,
        }
    }
}

/// Whether a text has no line break in it.
pub open spec fn single_line(text: Seq<char>) -> bool {
    !text.contains('\n') && !text.contains('\r')
}

/// Whether no stage before the classifier acts on the text.
pub open spec fn settled(text: Seq<char>, opts: Options) -> bool {
    box_stage(text, opts) is None && prompt_stage(text, opts) is None && url_repaired(text) is None
}

/// Picks the one reason of a run that looked at the text.
pub fn pick_reason(
    changed: bool,
    merged_backslash: bool,
    box_stripped: bool,
    prompt_stripped: bool,
) -> (reason: Option<TrimReason>)
    ensures
        reason == reason_for(changed, merged_backslash, box_stripped, prompt_stripped),
        reason is Some == changed,
{
    if !changed {
        None
    } else if merged_backslash {
        Some(TrimReason::BackslashMerged)
    } else if box_stripped {
        Some(TrimReason::BoxCharsRemoved)
    } else if prompt_stripped {
        Some(TrimReason::PromptStripped)
    } else {
        Some(TrimReason::Flattened)
    }
}

/// Trims a pasted shell snippet into one runnable line, or leaves it as
/// it is. The result is the one that `trim_outcome` states. In
/// particular: a text of more lines than `opts.max_lines` comes back as
/// it came, unchanged, with the reason `SkippedTooLarge`; any other text
/// has a reason exactly when it changed; and the fingerprint is that of
/// the input alone.
pub fn trim(input: &str, aggressiveness: Aggressiveness, opts: Options) -> (r: TrimResult)
    requires
        patterns_compile(),
    ensures
        r@ == trim_outcome(input@, aggressiveness, opts),
        r.hash == fingerprint_of(input@),
        too_large(input@, opts) ==> r.output@ == input@ && !r.changed && r.reason == Some(
            TrimReason::SkippedTooLarge,
        ),
        !too_large(input@, opts) ==> r.changed == (r.output@ != normalized(input@)) && (
        r.reason is Some) == r.changed && r.reason != Some(TrimReason::SkippedTooLarge),
{
    let raw = to_chars(input);
    let start = normalize_newlines(&raw);
    let hash = fingerprint(input);
    if exceeds_line_limit(&start, opts.max_lines) {
        return TrimResult {
            output: String::from_str(input),
            changed: false,
            reason: Some(TrimReason::SkippedTooLarge),
            hash,
        };
    }
    let mut current = copy_text(&start);
    let mut did_box_strip = false;
    let mut did_prompt_strip = false;
    let mut did_backslash_merge = false;
    if opts.strip_box_chars {
        if let Some(cleaned) = strip_box_drawing_characters(&current) {
            did_box_strip = true;
            current = cleaned;
        }
    }
    if opts.trim_prompts {
        if let Some(stripped) = strip_prompt_prefixes(&current) {
            did_prompt_strip = true;
            current = stripped;
        }
    }
    if let Some(repaired) = repair_wrapped_url(&current) {
        current = repaired;
    }
    if let Some(flat) = transform_if_command(&current, aggressiveness, opts.keep_blank_lines) {
        did_backslash_merge = flat.1;
        current = flat.0;
    }
    let changed = !same_text(&current, &start);
    let reason = pick_reason(changed, did_backslash_merge, did_box_strip, did_prompt_strip);
    TrimResult { output: to_text(&current), changed, reason, hash }
}

/// Trims as `trim` does, after testing that the pattern table compiles;
/// `None` where it does not.
pub fn try_trim(input: &str, aggressiveness: Aggressiveness, opts: Options) -> (r: Option<
    TrimResult,
>)
    ensures
        r is Some == patterns_compile(),
        r matches Some(result) ==> result@ == trim_outcome(input@, aggressiveness, opts),
{
    if check_patterns() {
        Some(trim(input, aggressiveness, opts))
    } else {
        None
    }
}

/// The fingerprint identifies the input: two runs on one input carry the
/// same fingerprint, whatever the aggressiveness and the options of each.
pub proof fn lemma_fingerprint_ignores_settings(
    input: Seq<char>,
    first_level: Aggressiveness,
    first_opts: Options,
    second_level: Aggressiveness,
    second_opts: Options,
)
    ensures
        trim_outcome(input, first_level, first_opts).hash == trim_outcome(
            input,
            second_level,
            second_opts,
        ).hash,
        trim_outcome(input, first_level, first_opts).hash == fingerprint_of(input),
{
}

/// The size guard: an input with more lines than `opts.max_lines` comes
/// back as it came, unchanged, with the reason `SkippedTooLarge`,
/// whatever else the options and the aggressiveness say.
pub proof fn lemma_size_guard(input: Seq<char>, aggressiveness: Aggressiveness, opts: Options)
    requires
        lines_of(normalized(input)).len() > opts.max_lines,
    ensures
        trim_outcome(input, aggressiveness, opts).output == input,
        !trim_outcome(input, aggressiveness, opts).changed,
        trim_outcome(input, aggressiveness, opts).reason == Some(TrimReason::SkippedTooLarge),
{
}

/// A run has a reason exactly when it changed the text or skipped it, and
/// it reports a change exactly when its output differs from the input
/// with its line ends normalised.
pub proof fn lemma_reason_follows_change(
    input: Seq<char>,
    aggressiveness: Aggressiveness,
    opts: Options,
)
    ensures
        ({
            let outcome = trim_outcome(input, aggressiveness, opts);
            &&& outcome.reason is Some <==> outcome.changed || too_large(input, opts)
            &&& outcome.reason == Some(TrimReason::SkippedTooLarge) <==> too_large(input, opts)
            &&& !too_large(input, opts) ==> outcome.changed == (outcome.output != normalized(
                input,
            ))
        }),
{
}

/// A second run leaves the output of a first run as it is, where that
/// output is one line and either the size guard skips it or neither
/// stripper nor the URL repair acts on it: the second run reports no
/// change and returns the line.
pub proof fn lemma_second_run_on_flat_output(
    input: Seq<char>,
    aggressiveness: Aggressiveness,
    opts: Options,
)
    requires
        single_line(trim_outcome(input, aggressiveness, opts).output),
        opts.max_lines == 0 || settled(trim_outcome(input, aggressiveness, opts).output, opts),
    ensures
        ({
            let first = trim_outcome(input, aggressiveness, opts);
            let second = trim_outcome(first.output, aggressiveness, opts);
            &&& !second.changed
            &&& second.output == first.output
            &&& second.reason is None || second.reason == Some(TrimReason::SkippedTooLarge)
        }),
{
    lemma_single_line_is_fixed(
        trim_outcome(input, aggressiveness, opts).output,
        aggressiveness,
        opts,
    );
}

/// A single line that the size guard skips, or on which neither stripper
/// nor the URL repair acts, is a fixed point of the run: the classifier
/// looks only at texts of two lines or more.
pub proof fn lemma_single_line_is_fixed(
    line: Seq<char>,
    aggressiveness: Aggressiveness,
    opts: Options,
)
    requires
        single_line(line),
        opts.max_lines == 0 || settled(line, opts),
    ensures
        !trim_outcome(line, aggressiveness, opts).changed,
        trim_outcome(line, aggressiveness, opts).output == line,
        opts.max_lines >= 1 ==> trim_outcome(line, aggressiveness, opts).reason is None,
{
    lemma_normalized_fixed(line);
    assert forall|i: int| 0 <= i < line.len() implies #[trigger] line[i] != '\n' by {}
    lemma_first_newline(line, line.len() as int);
}

} // verus!
