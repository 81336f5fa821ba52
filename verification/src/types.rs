//! The dial, the options and the result of a run.
use vstd::prelude::*;

verus! {

/// How readily the ambiguous heuristics fire.
#[derive(Debug, Clone, Copy, PartialEq, Eq)]
pub enum Aggressiveness {
    Low,
    Normal,
    High,
}

impl Aggressiveness {
    /// The dial for a numeric code: 0 is `Low`, 2 is `High`, and every
    /// other code is `Normal`.
    pub open spec fn of_code(code: u8) -> Aggressiveness {
        if code == 0 {
            Aggressiveness::Low
        } else if code == 2 {
            Aggressiveness::High
        } else {
            Aggressiveness::Normal
        }
    }

    /// Reads the dial from a numeric code; an unknown code gives `Normal`.
    pub fn from_code(code: u8) -> (level: Aggressiveness)
        ensures
            level == Aggressiveness::of_code(code),
    {
        match code {
            0 => Aggressiveness::Low,
            2 => Aggressiveness::High,
            _ => Aggressiveness::Normal,
        }
    }
}

/// Which stages run, and the size up to which a text is looked at.
#[derive(Debug, Clone, PartialEq, Eq)]
pub struct Options {
    pub keep_blank_lines: bool,
    pub strip_box_chars: bool,
    pub trim_prompts: bool,
    pub max_lines: usize,
}

impl Default for Options {
    /// Gutters and prompts are stripped, blank lines are not kept, and a
    /// text of more than ten lines is left alone.
    fn default() -> (opts: Options)
        ensures
            !opts.keep_blank_lines,
            opts.strip_box_chars,
            opts.trim_prompts,
            opts.max_lines == 10,
    {
        Options {
            keep_blank_lines: false,
            strip_box_chars: true,
            trim_prompts: true,
            max_lines: 10,
        }
    }
}

/// Why a run changed the text, or why it did not look at it.
#[derive(Debug, Clone, Copy, PartialEq, Eq)]
pub enum TrimReason {
    Flattened,
    PromptStripped,
    BoxCharsRemoved,
    BackslashMerged,
    SkippedTooLarge,
}

/// What a run returns.
#[derive(Debug, Clone, PartialEq, Eq)]
pub struct TrimResult {
    /// The text after the run.
    pub output: String,
    /// Whether `output` differs from the input with its line ends
    /// normalised.
    pub changed: bool,
    /// The one reason of the run, if it has one.
    pub reason: Option<TrimReason>,
    /// The fingerprint of the input as it came.
    pub hash: u128,
}

/// A `TrimResult` with its text as a sequence of characters and its
/// fingerprint as a number.
pub struct TrimOutcome {
    pub output: Seq<char>,
    pub changed: bool,
    pub reason: Option<TrimReason>,
    pub hash: nat,
}

impl View for TrimResult {
    type V = TrimOutcome;

    open spec fn view(&self) -> TrimOutcome {
        TrimOutcome {
            output: self.output@,
            changed: self.changed,
            reason: self.reason,
            hash: self.hash as nat,
        }
    }
}

} // verus!
