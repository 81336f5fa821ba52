//! The command classifier: reads the signals of a block of text and
//! decides from them whether the block is one wrapped command.
use crate::commands::{
    any_known_prefix, command_line_count, command_lines, contains_known_command_prefix,
};
use crate::flatten::{flatten, flattened_text, merges_backslash};
use crate::lines::{lines_of, split_lines, views};
use crate::matcher::{is_match, regex_is_match};
use crate::patterns::{
    patterns_compile, COMMAND_PUNCT, INDENTED_PIPELINE, JOINER_AT_EOL, LIST_BARETOKEN, LIST_BULLET,
    LIST_NUMBERED, PATH_TOKEN, PIPE_OR_OP, PROMPT_MARK, SOURCE_KEYWORD, SUDO_CMD,
};
use crate::quorum::{
    count_non_blank, count_where, lemma_count_step, meets_quorum, non_blank_count, quorum_met,
};
use crate::search::{contains_literal, contains_text};
use crate::text::{
    char_is_space, contains_char, is_space, lowercase, same_text, to_lowercase, trim_text, trimmed,
};
use crate::types::Aggressiveness;
use vstd::prelude::*;

verus! {

/// Whether `s` holds a whitespace character.
pub open spec fn has_space(s: Seq<char>) -> bool {
    exists|i: int| 0 <= i < s.len() && is_space(#[trigger] s[i])
}

/// Whether a line reads as a list item: after trimming it starts with a
/// bullet or a number and its item, or is one bare word of letters and
/// digits without a dot, a slash or a dollar sign.
pub open spec fn list_item(line: Seq<char>) -> bool {
    let t = trimmed(line);
    &&& t.len() > 0
    &&& {
        ||| regex_is_match(LIST_BULLET@, t)
        ||| regex_is_match(LIST_NUMBERED@, t)
        ||| (!has_space(t) && regex_is_match(LIST_BARETOKEN@, t) && !t.contains('.')
            && !t.contains('/') && !t.contains('$'))
    }
}

/// Whether a majority of the lines that are not blank read as list items.
pub open spec fn likely_list(lines: Seq<Seq<char>>) -> bool {
    quorum_met(count_where(lines, |l: Seq<char>| list_item(l)), non_blank_count(lines))
}

/// Whether the text holds the punctuation that commands are written with.
pub open spec fn command_punctuation(text: Seq<char>) -> bool {
    regex_is_match(COMMAND_PUNCT@, text)
}

/// Whether the text reads as source code: it holds a brace or the word
/// `begin`, in any case, and a line of it starts with a keyword.
pub open spec fn likely_source_code(text: Seq<char>) -> bool {
    &&& (text.contains('{') || text.contains('}') || contains_text(lowercase(text), "begin"@))
    &&& regex_is_match(SOURCE_KEYWORD@, text)
}

/// The point that a signal adds to the score when it is present.
pub open spec fn point(present: bool) -> nat {
    if present {
        1
    } else {
        0
    }
}

/// What the classifier reads from a block of text.
pub struct Signals {
    /// A backslash stands right before a line break.
    pub line_continuation: bool,
    /// A line ends in a backslash, a pipe, an operator or a semicolon.
    pub joiner_at_eol: bool,
    /// A line goes on a pipeline after its indentation.
    pub indented_pipeline: bool,
    /// A pipe or a logical operator is present.
    pub pipe_or_operator: bool,
    /// A dollar prompt starts a line.
    pub prompt_marker: bool,
    /// A token with a slash between two path segments is present.
    pub path_token: bool,
    /// A line starts with a command word, after `sudo` or not.
    pub sudo_command: bool,
    /// A line starts with a known command.
    pub known_prefix: bool,
    /// Command punctuation is present.
    pub command_punctuation: bool,
    /// The block reads as source code.
    pub source_code: bool,
    /// A majority of the lines read as list items.
    pub list_like: bool,
    /// The number of lines that look like commands.
    pub command_lines: usize,
    /// The number of lines that are not blank.
    pub non_blank_lines: usize,
}

impl Signals {
    /// Whether the block says itself that its lines belong together.
    pub open spec fn explicit_join(self) -> bool {
        self.line_continuation || self.joiner_at_eol || self.indented_pipeline
    }

    /// Whether a signal is present that prose rarely carries.
    pub open spec fn strong(self) -> bool {
        self.line_continuation || self.pipe_or_operator || self.prompt_marker || self.path_token
    }

    /// Whether every line that is not blank looks like a command.
    pub open spec fn all_commands(self) -> bool {
        self.command_lines == self.non_blank_lines
    }

    /// One point for each of: a line continuation, a pipe or operator, a
    /// prompt marker, every line a command, a command start, a path token.
    pub open spec fn score(self) -> nat {
        point(self.line_continuation) + point(self.pipe_or_operator) + point(self.prompt_marker)
            + point(self.all_commands()) + point(self.sudo_command) + point(self.path_token)
    }

    /// Whether the block is a list: nothing to flatten.
    pub open spec fn rejects_as_list(self) -> bool {
        self.list_like
    }

    /// Whether the block is three or more commands, each on its own line,
    /// with nothing that joins them: nothing to merge.
    pub open spec fn rejects_as_segmented(self) -> bool {
        !self.explicit_join() && self.all_commands() && self.non_blank_lines >= 3
    }

    /// Whether the block carries nothing of a command: no strong signal,
    /// no known command and no command punctuation.
    pub open spec fn rejects_as_weak(self) -> bool {
        !self.strong() && !self.known_prefix && !self.command_punctuation
    }

    /// Whether the block is source code without a strong signal.
    pub open spec fn rejects_as_source(self) -> bool {
        self.source_code && !self.strong()
    }

    /// Whether the signals speak for one wrapped command at the given
    /// aggressiveness: none of the four rejections applies, unless the
    /// aggressiveness is `High`, which overrides them, and the score
    /// reaches the threshold.
    pub open spec fn accepts(self, aggressiveness: Aggressiveness) -> bool {
        &&& aggressiveness is High || !(self.rejects_as_list() || self.rejects_as_segmented()
            || self.rejects_as_weak() || self.rejects_as_source())
        &&& self.score() >= threshold_of(aggressiveness)
    }

    /// The score of the signals, which is at most six.
    pub fn total_score(&self) -> (score: u8)
        ensures
            score == self.score(),
            score <= 6,
    {
        let mut score: u8 = 0;
        if self.line_continuation {
            score += 1;
        }
        if self.pipe_or_operator {
            score += 1;
        }
        if self.prompt_marker {
            score += 1;
        }
        if self.command_lines == self.non_blank_lines {
            score += 1;
        }
        if self.sudo_command {
            score += 1;
        }
        if self.path_token {
            score += 1;
        }
        score
    }

    /// Whether the signals speak for one wrapped command at the given
    /// aggressiveness.
    pub fn is_command(&self, aggressiveness: Aggressiveness) -> (r: bool)
        ensures
            r == self.accepts(aggressiveness),
    {
        let explicit_join = self.line_continuation || self.joiner_at_eol || self.indented_pipeline;
        let strong = self.line_continuation || self.pipe_or_operator || self.prompt_marker
            || self.path_token;
        let all_commands = self.command_lines == self.non_blank_lines;
        let high = matches!(aggressiveness, Aggressiveness::High);
        if !high {
            if self.list_like {
                return false;
            }
            if !explicit_join && all_commands && self.non_blank_lines >= 3 {
                return false;
            }
            if !strong && !self.known_prefix && !self.command_punctuation {
                return false;
            }
            if self.source_code && !strong {
                return false;
            }
        }
        self.total_score() >= threshold(aggressiveness)
    }
}

/// The score that a block must reach: three at `Low`, two at `Normal`,
/// one at `High`.
pub open spec fn threshold_of(aggressiveness: Aggressiveness) -> nat {
    match aggressiveness {
        Aggressiveness::Low => 3,
        Aggressiveness::Normal => 2,
        Aggressiveness::High => 1,
    }
}

/// The score that a block must reach at the given aggressiveness.
pub fn threshold(aggressiveness: Aggressiveness) -> (t: u8)
    ensures
        t == threshold_of(aggressiveness),
{
    match aggressiveness {
        Aggressiveness::Low => 3,
        Aggressiveness::Normal => 2,
        Aggressiveness::High => 1,
    }
}

/// The signals of a text.
pub open spec fn signals_of(text: Seq<char>) -> Signals {
    let lines = lines_of(text);
    Signals {
        line_continuation: contains_text(text, "\\\n"@),
        joiner_at_eol: regex_is_match(JOINER_AT_EOL@, text),
        indented_pipeline: regex_is_match(INDENTED_PIPELINE@, text),
        pipe_or_operator: regex_is_match(PIPE_OR_OP@, text),
        prompt_marker: regex_is_match(PROMPT_MARK@, text),
        path_token: regex_is_match(PATH_TOKEN@, text),
        sudo_command: regex_is_match(SUDO_CMD@, text),
        known_prefix: any_known_prefix(lines),
        command_punctuation: command_punctuation(text),
        source_code: likely_source_code(text),
        list_like: likely_list(lines),
        command_lines: command_lines(lines) as usize,
        non_blank_lines: non_blank_count(lines) as usize,
    }
}

/// Whether the text is of a size that the classifier looks at: two to ten
/// lines, and no more than four line breaks unless the aggressiveness is
/// `High`.
pub open spec fn in_size(text: Seq<char>, aggressiveness: Aggressiveness) -> bool {
    let n = lines_of(text).len();
    2 <= n <= 10 && (aggressiveness is High || n - 1 <= 4)
}

/// Whether the text is taken for one wrapped command.
pub open spec fn is_wrapped_command(text: Seq<char>, aggressiveness: Aggressiveness) -> bool {
    in_size(text, aggressiveness) && signals_of(text).accepts(aggressiveness)
}

/// The text flattened, with the report of a merged backslash, where the
/// text is taken for one wrapped command and flattening changes it; else
/// nothing.
pub open spec fn command_flattened(
    text: Seq<char>,
    aggressiveness: Aggressiveness,
    keep_blank_lines: bool,
) -> Option<(Seq<char>, bool)> {
    if is_wrapped_command(text, aggressiveness) && flattened_text(text, keep_blank_lines) != text {
        Some((flattened_text(text, keep_blank_lines), merges_backslash(text, keep_blank_lines)))
    } else {
        None
    }
}

/// The dial only admits more as it is turned up: a text that is taken for
/// a wrapped command at `Low` is taken for one at `Normal`, and one that
/// is taken for one at `Normal` is taken for one at `High`.
pub proof fn lemma_higher_aggressiveness_accepts_more(text: Seq<char>)
    ensures
        is_wrapped_command(text, Aggressiveness::Low) ==> is_wrapped_command(
            text,
            Aggressiveness::Normal,
        ),
        is_wrapped_command(text, Aggressiveness::Normal) ==> is_wrapped_command(
            text,
            Aggressiveness::High,
        ),
{
}

/// Whether `s` holds a whitespace character.
pub fn contains_space(s: &Vec<char>) -> (r: bool)
    ensures
        r == has_space(s@),
{
    let mut i: usize = 0;
    while i < s.len()
        invariant
            i <= s.len(),
            forall|j: int| 0 <= j < i ==> !is_space(#[trigger] s@[j]),
        decreases s.len() - i,
    {
        if char_is_space(s[i]) {
            return true;
        }
        i += 1;
    }
    false
}

/// Whether a line reads as a list item.
pub fn is_list_item(line: &Vec<char>) -> (r: bool)
    requires
        patterns_compile(),
    ensures
        r == list_item(line@),
{
    let t = trim_text(line);
    if t.len() == 0 {
        return false;
    }
    if is_match(LIST_BULLET, &t) {
        return true;
    }
    if is_match(LIST_NUMBERED, &t) {
        return true;
    }
    !contains_space(&t) && is_match(LIST_BARETOKEN, &t) && !contains_char(&t, '.')
        && !contains_char(&t, '/') && !contains_char(&t, '$')
}

/// Whether a majority of the lines that are not blank read as list items.
pub fn is_likely_list(lines: &Vec<Vec<char>>) -> (r: bool)
    requires
        patterns_compile(),
    ensures
        r == likely_list(views(lines@)),
{
    let non_blank = count_non_blank(lines);
    let mut items: usize = 0;
    let mut k: usize = 0;
    while k < lines.len()
        invariant
            patterns_compile(),
            k <= lines.len(),
            items <= k,
            items == count_where(views(lines@).take(k as int), |l: Seq<char>| list_item(l)),
        decreases lines.len() - k,
    {
        proof {
            lemma_count_step(views(lines@), |l: Seq<char>| list_item(l), k as int);
        }
        if is_list_item(&lines[k]) {
            items += 1;
        }
        k += 1;
    }
    assert(views(lines@).take(lines.len() as int) == views(lines@));
    meets_quorum(items, non_blank)
}

/// Whether the text holds the punctuation that commands are written with.
pub fn has_command_punctuation(text: &Vec<char>) -> (r: bool)
    requires
        patterns_compile(),
    ensures
        r == command_punctuation(text@),
{
    is_match(COMMAND_PUNCT, text)
}

/// Whether the text reads as source code.
pub fn is_likely_source_code(text: &Vec<char>) -> (r: bool)
    requires
        patterns_compile(),
    ensures
        r == likely_source_code(text@),
{
    let has_braces = contains_char(text, '{') || contains_char(text, '}') || contains_literal(
        &to_lowercase(text),
        "begin",
    );
    let has_keywords = is_match(SOURCE_KEYWORD, text);
    has_braces && has_keywords
}

/// Reads the signals of a text from the text and its lines.
pub fn read_signals(text: &Vec<char>, lines: &Vec<Vec<char>>) -> (signals: Signals)
    requires
        patterns_compile(),
        views(lines@) == lines_of(text@),
    ensures
        signals == signals_of(text@),
{
    Signals {
        line_continuation: contains_literal(text, "\\\n"),
        joiner_at_eol: is_match(JOINER_AT_EOL, text),
        indented_pipeline: is_match(INDENTED_PIPELINE, text),
        pipe_or_operator: is_match(PIPE_OR_OP, text),
        prompt_marker: is_match(PROMPT_MARK, text),
        path_token: is_match(PATH_TOKEN, text),
        sudo_command: is_match(SUDO_CMD, text),
        known_prefix: contains_known_command_prefix(lines),
        command_punctuation: has_command_punctuation(text),
        source_code: is_likely_source_code(text),
        list_like: is_likely_list(lines),
        command_lines: command_line_count(lines),
        non_blank_lines: count_non_blank(lines),
    }
}

/// Flattens the text where it is taken for one wrapped command; `None`
/// where it is not, or where flattening leaves it as it is. With the
/// flattened text comes the report of a merged backslash.
pub fn transform_if_command(
    text: &Vec<char>,
    aggressiveness: Aggressiveness,
    keep_blank_lines: bool,
) -> (r: Option<(Vec<char>, bool)>)
    requires
        patterns_compile(),
    ensures
        r is Some == command_flattened(text@, aggressiveness, keep_blank_lines) is Some,
        r matches Some(flat) ==> command_flattened(text@, aggressiveness, keep_blank_lines)
            == Some((flat.0@, flat.1)) && flat.0@ != text@,
{
    let lines = split_lines(text);
    if lines.len() < 2 || lines.len() > 10 {
        return None;
    }
    let high = matches!(aggressiveness, Aggressiveness::High);
    if !high && lines.len() - 1 > 4 {
        return None;
    }
    let signals = read_signals(text, &lines);
    if !signals.is_command(aggressiveness) {
        return None;
    }
    let (flat, merged_backslash) = flatten(text, keep_blank_lines);
    if same_text(&flat, text) {
        None
    } else {
        Some((flat, merged_backslash))
    }
}

} // verus!
