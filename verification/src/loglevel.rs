//! The operator-facing log levels and the parsing of the level word given
//! on the command line. An unknown word is rejected, and the run must end
//! before any other work.

use vstd::prelude::*;

verus! {

/// The selectable log levels, from fully silent to fully verbose.
#[derive(Debug, PartialEq, Eq, Structural, Clone, Copy)]
pub enum LogLevel {
    Off,
    Error,
    Warn,
    Info,
    Debug,
    Trace,
}

/// The level that a level word names: exactly the six lower-case words are
/// accepted.
pub open spec fn spec_log_level(s: Seq<char>) -> Option<LogLevel> {
    if s == "off"@ {
        Some(LogLevel::Off)
    } else if s == "error"@ {
        Some(LogLevel::Error)
    } else if s == "warn"@ {
        Some(LogLevel::Warn)
    } else if s == "info"@ {
        Some(LogLevel::Info)
    } else if s == "debug"@ {
        Some(LogLevel::Debug)
    } else if s == "trace"@ {
        Some(LogLevel::Trace)
    } else {
        None
    }
}

fn str_eq(a: &str, b: &str) -> (r: bool)
    ensures
        r == (a@ == b@),
{
    let sa = a.to_owned();
    let sb = b.to_owned();
    sa == sb
}

/// Parses an operator-supplied level word: one of `off`, `error`, `warn`,
/// `info`, `debug`, `trace`, and nothing else.
pub fn parse_log_level(s: &str) -> (r: Option<LogLevel>)
    ensures
        r == spec_log_level(s@),
{
    if str_eq(s, "off") {
        Some(LogLevel::Off)
    } else if str_eq(s, "error") {
        Some(LogLevel::Error)
    } else if str_eq(s, "warn") {
        Some(LogLevel::Warn)
    } else if str_eq(s, "info") {
        Some(LogLevel::Info)
    } else if str_eq(s, "debug") {
        Some(LogLevel::Debug)
    } else if str_eq(s, "trace") {
        Some(LogLevel::Trace)
    } else {
        None
    }
}

} // verus!
