//! Normalises pasted shell transcripts into one runnable command line.
//!
//! A paste from a terminal comes wrapped in box-drawing borders, with
//! prompts before its commands, with backslash continuations, or with a
//! long path or address that an editor broke. `trim` takes such a text
//! through a fixed sequence of stages and hands back one line that can be
//! run, or the text as it came where it does not look like one wrapped
//! command.
pub mod classify;
pub mod commands;
pub mod fingerprint;
pub mod flatten;
pub mod gutter;
pub mod lines;
pub mod matcher;
pub mod patterns;
pub mod pipeline;
pub mod prompt;
pub mod quorum;
pub mod report;
pub mod search;
pub mod text;
pub mod types;
pub mod url;

pub use crate::pipeline::{trim, try_trim};
pub use crate::types::{Aggressiveness, Options, TrimReason, TrimResult};
