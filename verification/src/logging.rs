//! The log level the server runs at.

use vstd::prelude::*;

verus! {

/// The levels of the log, from least to most verbose.
#[derive(Clone, Copy, Debug, PartialEq, Eq, Structural)]
pub enum LogLevel {
    Error,
    Warn,
    Info,
    Debug,
    Trace,
}

/// A level's verbosity: higher is more verbose (as `tracing` orders its levels).
pub open spec fn verbosity(l: LogLevel) -> int {
    match l {
        LogLevel::Error => 1,
        LogLevel::Warn => 2,
        LogLevel::Info => 3,
        LogLevel::Debug => 4,
        LogLevel::Trace => 5,
    }
}

/// An ASCII upper-case letter made lower case; any other character as it is.
pub open spec fn ascii_lower(c: char) -> char {
    if 'A' <= c <= 'Z' { ((c as u32) + 32) as char } else { c }
}

/// Whether `s` equals the lower-case ASCII word `word` ignoring ASCII case.
pub open spec fn eq_ignore_ascii_case(s: Seq<char>, word: Seq<char>) -> bool {
    s.len() == word.len() && forall|i: int| 0 <= i < s.len() ==> ascii_lower(#[trigger] s[i]) == word[i]
}

/// Whether every character is a decimal digit.
pub open spec fn all_digits(s: Seq<char>) -> bool {
    forall|i: int| 0 <= i < s.len() ==> '0' <= #[trigger] s[i] <= '9'
}

/// The value of decimal digits.
pub open spec fn digits_value(s: Seq<char>) -> int
    decreases s.len(),
{
    if s.len() == 0 {
        0
    } else {
        digits_value(s.drop_last()) * 10 + (s.last() as int - 48)
    }
}

/// The number an unsigned-integer parser reads from `s`: an optional leading `+`,
/// then at least one decimal digit.
pub open spec fn unsigned_value(s: Seq<char>) -> Option<int> {
    let d = if s.len() > 0 && s[0] == '+' { s.drop_first() } else { s };
    if d.len() > 0 && all_digits(d) { Some(digits_value(d)) } else { None }
}

/// The level a text names, as `tracing::Level`'s parser reads it: a number from 1
/// (error) to 5 (trace), or a level's name in any ASCII case.
pub open spec fn spec_parse_level(s: Seq<char>) -> Option<LogLevel> {
    let n = unsigned_value(s);
    if n == Some(1int) {
        Some(LogLevel::Error)
    } else if n == Some(2int) {
        Some(LogLevel::Warn)
    } else if n == Some(3int) {
        Some(LogLevel::Info)
    } else if n == Some(4int) {
        Some(LogLevel::Debug)
    } else if n == Some(5int) {
        Some(LogLevel::Trace)
    } else if eq_ignore_ascii_case(s, "error"@) {
        Some(LogLevel::Error)
    } else if eq_ignore_ascii_case(s, "warn"@) {
        Some(LogLevel::Warn)
    } else if eq_ignore_ascii_case(s, "info"@) {
        Some(LogLevel::Info)
    } else if eq_ignore_ascii_case(s, "debug"@) {
        Some(LogLevel::Debug)
    } else if eq_ignore_ascii_case(s, "trace"@) {
        Some(LogLevel::Trace)
    } else {
        None
    }
}

/// Parses a level, by `tracing::Level`'s `FromStr`. Claims what its source shows:
/// the text is first read as an unsigned number (1 to 5 name the levels from error
/// to trace), and otherwise compared with the level names ignoring ASCII case.
#[verifier::external_body]
fn parse_tracing_level(s: &str) -> (r: Option<LogLevel>)
    ensures
        r == spec_parse_level(s@),
{
    match s.parse::<tracing::Level>() {
        Ok(l) => if l == tracing::Level::ERROR {
            Some(LogLevel::Error)
        } else if l == tracing::Level::WARN {
            Some(LogLevel::Warn)
        } else if l == tracing::Level::INFO {
            Some(LogLevel::Info)
        } else if l == tracing::Level::DEBUG {
            Some(LogLevel::Debug)
        } else {
            Some(LogLevel::Trace)
        },
        Err(_) => None,
    }
}

/// The log level: the level `RYLUS_LOG_LEVEL` names when it names one, else debug
/// in a debug build and info otherwise.
pub fn log_level(debug_build: bool, env_value: Option<&str>) -> (r: LogLevel)
    ensures
        r == match env_value {
            Some(v) => match spec_parse_level(v@) {
                Some(l) => l,
                None => if debug_build { LogLevel::Debug } else { LogLevel::Info },
            },
            None => if debug_build { LogLevel::Debug } else { LogLevel::Info },
        },
{
    let default = if debug_build { LogLevel::Debug } else { LogLevel::Info };
    match env_value {
        Some(v) => match parse_tracing_level(v) {
            Some(l) => l,
            None => default,
        },
        None => default,
    }
}

/// Whether a level logs debug messages.
pub fn debug_enabled(level: LogLevel) -> (r: bool)
    ensures
        r == (verbosity(level) >= verbosity(LogLevel::Debug)),
{
    match level {
        LogLevel::Debug | LogLevel::Trace => true,
        _ => false,
    }
}

} // verus!
