//! The table of patterns that the stages search with, and the test that
//! every one of them compiles.
use crate::matcher::{compiles, regex_compiles};
use vstd::prelude::*;

verus! {

/// A run of line breaks that holds at least one blank line.
pub const BLANK_RUN: &'static str = r"\n\s*\n";

/// A word broken after a hyphen at a line end.
pub const HYPHEN_JOIN: &'static str = r"(?m)([A-Za-z0-9._~-])-\s*\n\s*([A-Za-z0-9._~-])";

/// Two upper-case or identifier-like characters with only a line break
/// between them.
pub const ADJ_WORD_JOIN: &'static str = r"(?m)([A-Z0-9_.-])\s*\n\s*([A-Z0-9_.-])";

/// A path broken right after a separator.
pub const PATH_JOIN: &'static str = r"(?m)([/:~])\s*\n\s*([A-Za-z0-9._-])";

/// A backslash that continues the line.
pub const BACKSLASH_NEWLINE: &'static str = r"\\\s*\n";

/// A run of line feeds.
pub const NEWLINES: &'static str = r"\n+";

/// A run of whitespace.
pub const SPACES: &'static str = r"\s+";

/// A pipe or a logical operator.
pub const PIPE_OR_OP: &'static str = r"[|&]{1,2}";

/// A dollar prompt at the start of a line.
pub const PROMPT_MARK: &'static str = r"(?m)(^|\n)\s*\$";

/// A line that starts with a command word, after `sudo` or not.
pub const SUDO_CMD: &'static str = r"(?m)^\s*(sudo\s+)?[A-Za-z0-9./~_-]+\b";

/// Two path segments around a slash.
pub const PATH_TOKEN: &'static str = r"[A-Za-z0-9._~-]+/[A-Za-z0-9._~-]+";

/// A bullet and its item.
pub const LIST_BULLET: &'static str = r"^[-*•]\s+\S";

/// A number, a dot or bracket, and its item.
pub const LIST_NUMBERED: &'static str = r"^[0-9]+[.)]\s+\S";

/// A bare word of four or more letters and digits.
pub const LIST_BARETOKEN: &'static str = r"^[A-Za-z0-9]{4,}$";

/// A line that starts with a keyword of a programming language.
pub const SOURCE_KEYWORD: &'static str =
    r"(?m)^\s*(import|package|namespace|using|template|class|struct|enum|extension|protocol|interface|func|def|fn|let|var|public|private|internal|open|protected|if|for|while)\b";

/// A line joiner at a line end: a backslash, a pipe, an operator or a
/// semicolon.
pub const JOINER_AT_EOL: &'static str = r"(?m)(\\|[|&]{1,2}|;)\s*$";

/// A line that goes on a pipeline after its indentation.
pub const INDENTED_PIPELINE: &'static str = r"(?m)^\s*[|&]{1,2}\s+\S";

/// A command word at the start, after `sudo` or not, that whitespace or
/// the end of the text follows.
pub const COMMAND_LINE: &'static str = r"^(sudo\s+)?[A-Za-z0-9./~_-]+(?:\s+|\z)";

/// The punctuation that commands are written with.
pub const COMMAND_PUNCT: &'static str = r"[./~_=:-]";

/// A whole text that reads as one `http` or `https` address.
pub const VALID_URL: &'static str = r"^https?://[A-Za-z0-9._~:/?#\[\]@!$&'()*+,;=%-]+$";

/// A gutter glyph.
pub const BOX_GLYPH: &'static str = "[│┃╎╏┆┇┊┋╽╿￨｜]";

/// A gutter at the start of a line.
pub const BOX_LEADING: &'static str = r"^\s*[│┃╎╏┆┇┊┋╽╿￨｜]+ ?";

/// A gutter at the end of a line.
pub const BOX_TRAILING: &'static str = r" ?[│┃╎╏┆┇┊┋╽╿￨｜]+\s*$";

/// A gutter right after a pipe on the same line, with the spacing around
/// it.
pub const BOX_AFTER_PIPE: &'static str = r"\|[^\S\n]*[│┃╎╏┆┇┊┋╽╿￨｜]+[^\S\n]*";

/// A gutter between a path separator and what follows it on the same
/// line.
pub const BOX_PATH_JOIN: &'static str =
    r"([:/])[^\S\n]*[│┃╎╏┆┇┊┋╽╿￨｜]+[^\S\n]*([A-Za-z0-9])";

/// A gutter between two tokens of one line.
pub const BOX_MID_TOKEN: &'static str = r"(\S)[^\S\n]*[│┃╎╏┆┇┊┋╽╿￨｜]+[^\S\n]*(\S)";

/// Two or more spaces.
pub const SPACE_RUN: &'static str = r" {2,}";

/// Every pattern of the table compiles. The stages search only under this
/// condition; `check_patterns` tests it.
pub open spec fn patterns_compile() -> bool {
    &&& regex_compiles(BLANK_RUN@)
    &&& regex_compiles(HYPHEN_JOIN@)
    &&& regex_compiles(ADJ_WORD_JOIN@)
    &&& regex_compiles(PATH_JOIN@)
    &&& regex_compiles(BACKSLASH_NEWLINE@)
    &&& regex_compiles(NEWLINES@)
    &&& regex_compiles(SPACES@)
    &&& regex_compiles(PIPE_OR_OP@)
    &&& regex_compiles(PROMPT_MARK@)
    &&& regex_compiles(SUDO_CMD@)
    &&& regex_compiles(PATH_TOKEN@)
    &&& regex_compiles(LIST_BULLET@)
    &&& regex_compiles(LIST_NUMBERED@)
    &&& regex_compiles(LIST_BARETOKEN@)
    &&& regex_compiles(SOURCE_KEYWORD@)
    &&& regex_compiles(JOINER_AT_EOL@)
    &&& regex_compiles(INDENTED_PIPELINE@)
    &&& regex_compiles(COMMAND_LINE@)
    &&& regex_compiles(COMMAND_PUNCT@)
    &&& regex_compiles(VALID_URL@)
    &&& regex_compiles(BOX_GLYPH@)
    &&& regex_compiles(BOX_LEADING@)
    &&& regex_compiles(BOX_TRAILING@)
    &&& regex_compiles(BOX_AFTER_PIPE@)
    &&& regex_compiles(BOX_PATH_JOIN@)
    &&& regex_compiles(BOX_MID_TOKEN@)
    &&& regex_compiles(SPACE_RUN@)
}

/// Compiles every pattern of the table once and reports whether all of
/// them were accepted.
pub fn check_patterns() -> (ok: bool)
    ensures
        ok == patterns_compile(),
{
    compiles(BLANK_RUN) && compiles(HYPHEN_JOIN) && compiles(ADJ_WORD_JOIN) && compiles(PATH_JOIN)
        && compiles(BACKSLASH_NEWLINE) && compiles(NEWLINES) && compiles(SPACES) && compiles(
        PIPE_OR_OP,
    ) && compiles(PROMPT_MARK) && compiles(SUDO_CMD) && compiles(PATH_TOKEN) && compiles(
        LIST_BULLET,
    ) && compiles(LIST_NUMBERED) && compiles(LIST_BARETOKEN) && compiles(SOURCE_KEYWORD)
        && compiles(JOINER_AT_EOL) && compiles(INDENTED_PIPELINE) && compiles(COMMAND_LINE)
        && compiles(COMMAND_PUNCT) && compiles(VALID_URL) && compiles(BOX_GLYPH) && compiles(
        BOX_LEADING,
    ) && compiles(BOX_TRAILING) && compiles(BOX_AFTER_PIPE) && compiles(BOX_PATH_JOIN) && compiles(
        BOX_MID_TOKEN,
    ) && compiles(SPACE_RUN)
}

} // verus!
