//! Log levels, and how each line of engine output is shown at a level.

use vstd::prelude::*;

use crate::options::views;

verus! {

/// How much of the engine's output reaches the caller.
#[derive(Debug, Clone, Copy, PartialEq, Eq, Structural)]
pub enum LogLevel {
    Off,
    Error,
    Warn,
    Info,
    Debug,
    Trace,
}

/// Levels in increasing order of detail.
pub open spec fn level_rank(l: LogLevel) -> nat {
    match l {
        LogLevel::Off => 0,
        LogLevel::Error => 1,
        LogLevel::Warn => 2,
        LogLevel::Info => 3,
        LogLevel::Debug => 4,
        LogLevel::Trace => 5,
    }
}

/// The level of a command: silent when quiet, else one step per verbosity
/// level above errors only, up to the most detailed.
pub open spec fn level_of(quiet: bool, verbosity: u8) -> LogLevel {
    if quiet {
        LogLevel::Off
    } else if verbosity == 0 {
        LogLevel::Error
    } else if verbosity == 1 {
        LogLevel::Warn
    } else if verbosity == 2 {
        LogLevel::Info
    } else if verbosity == 3 {
        LogLevel::Debug
    } else {
        LogLevel::Trace
    }
}

/// The level of a command with the given quiet switch and verbosity.
pub fn log_level(quiet: bool, verbosity: u8) -> (r: LogLevel)
    ensures
        r == level_of(quiet, verbosity),
        level_rank(r) == (if quiet {
            0
        } else if verbosity >= 4 {
            5
        } else {
            verbosity + 1
        }),
{
    if quiet {
        LogLevel::Off
    } else {
        match verbosity {
            0 => LogLevel::Error,
            1 => LogLevel::Warn,
            2 => LogLevel::Info,
            3 => LogLevel::Debug,
            _ => LogLevel::Trace,
        }
    }
}

/// A higher verbosity never shows less.
pub proof fn lemma_level_monotone(v1: u8, v2: u8)
    requires
        v1 <= v2,
    ensures
        level_rank(level_of(false, v1)) <= level_rank(level_of(false, v2)),
{
}

/// The severity of a line of engine output.
#[derive(Debug, Clone, Copy, PartialEq, Eq, Structural)]
pub enum LineKind {
    Output,
    Info,
    Warn,
    Error,
    Debug,
    Panic,
}

/// One line of engine output.
#[derive(Debug, Clone, PartialEq, Eq)]
pub struct OutputLine {
    pub kind: LineKind,
    pub text: String,
}

/// The lowest level at which a line of `kind` is shown.
pub open spec fn threshold(kind: LineKind) -> nat {
    match kind {
        LineKind::Panic => 0,
        LineKind::Output => 1,
        LineKind::Error => 1,
        LineKind::Warn => 2,
        LineKind::Info => 3,
        LineKind::Debug => 4,
    }
}

/// The tag put before a line of `kind`.
pub open spec fn tag(kind: LineKind) -> Seq<char> {
    match kind {
        LineKind::Output => Seq::empty(),
        LineKind::Info => "[INFO] "@,
        LineKind::Warn => "[WARN] "@,
        LineKind::Error => "[ERROR] "@,
        LineKind::Debug => "[DEBUG] "@,
        LineKind::Panic => "[PANIC] "@,
    }
}

/// The text that a line adds to the output at `level`: the tagged line, or
/// nothing when the level hides it.
pub open spec fn rendered(level: LogLevel, kind: LineKind, text: Seq<char>) -> Seq<char> {
    if level_rank(level) >= threshold(kind) {
        tag(kind) + text
    } else {
        Seq::empty()
    }
}

fn rank(level: LogLevel) -> (r: u8)
    ensures
        r == level_rank(level),
{
    match level {
        LogLevel::Off => 0,
        LogLevel::Error => 1,
        LogLevel::Warn => 2,
        LogLevel::Info => 3,
        LogLevel::Debug => 4,
        LogLevel::Trace => 5,
    }
}

fn kind_threshold(kind: LineKind) -> (r: u8)
    ensures
        r == threshold(kind),
{
    match kind {
        LineKind::Panic => 0,
        LineKind::Output => 1,
        LineKind::Error => 1,
        LineKind::Warn => 2,
        LineKind::Info => 3,
        LineKind::Debug => 4,
    }
}

/// The text of one line at `level`.
pub fn render_line(level: LogLevel, kind: LineKind, text: &String) -> (r: String)
    ensures
        r@ == rendered(level, kind, text@),
{
    if rank(level) < kind_threshold(kind) {
        return String::new();
    }
    let mut s = match kind {
        LineKind::Output => {
            let s = text.clone();
            assert(s@ =~= tag(kind) + text@);
            return s;
        },
        LineKind::Info => "[INFO] ".to_string(),
        LineKind::Warn => "[WARN] ".to_string(),
        LineKind::Error => "[ERROR] ".to_string(),
        LineKind::Debug => "[DEBUG] ".to_string(),
        LineKind::Panic => "[PANIC] ".to_string(),
    };
    s.append(text.as_str());
    s
}

/// What a command returns to its caller.
#[derive(Debug, Clone, PartialEq, Eq)]
pub struct PyCommandOutput {
    pub output: String,
}

} // verus!
