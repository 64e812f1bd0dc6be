//! The levels of `slog`, as this crate relies on them.
use vstd::prelude::*;

use slog::Level as LogLevel;

verus! {

/// Whether `c` is an ASCII upper-case letter.
pub open spec fn is_ascii_upper(c: char) -> bool {
    'A' <= c && c <= 'Z'
}

/// `c` with an ASCII upper-case letter made lower case.
pub open spec fn ascii_lower(c: char) -> char {
    if is_ascii_upper(c) {
        ((c as u32 + 32) as u32) as char
    } else {
        c
    }
}

/// `s` with its ASCII upper-case letters made lower case.
pub open spec fn ascii_lowercase(s: Seq<char>) -> Seq<char> {
    s.map_values(|c: char| ascii_lower(c))
}

/// Relies on `str::to_ascii_lowercase`: the ASCII letters 'A' to 'Z' become
/// 'a' to 'z', and every other character is kept.
#[verifier::external_body]
pub(crate) fn to_ascii_lowercase(s: &str) -> (r: String)
    ensures
        r@ == ascii_lowercase(s@),
{
    s.to_ascii_lowercase()
}

/// Relies on `slog::Level`, an enumeration of six unit variants, read as it
/// is declared.
#[verifier::external_type_specification]
pub struct ExLogLevel(LogLevel);

/// The name that `slog` gives a level.
pub open spec fn slog_level_name(l: LogLevel) -> Seq<char> {
    match l {
        LogLevel::Critical => "CRITICAL"@,
        LogLevel::Error => "ERROR"@,
        LogLevel::Warning => "WARNING"@,
        LogLevel::Info => "INFO"@,
        LogLevel::Debug => "DEBUG"@,
        LogLevel::Trace => "TRACE"@,
    }
}

/// Relies on `slog::Level::as_str`: the entry of `LOG_LEVEL_NAMES` at the
/// level's number.
pub assume_specification[ LogLevel::as_str ](l: &LogLevel) -> (r: &'static str)
    ensures
        r@ == slog_level_name(*l),
;

/// The level of `slog` with the given number: 1 is `Critical`, 6 is `Trace`.
pub open spec fn slog_level_at(u: int) -> Option<LogLevel> {
    if u == 1 {
        Some(LogLevel::Critical)
    } else if u == 2 {
        Some(LogLevel::Error)
    } else if u == 3 {
        Some(LogLevel::Warning)
    } else if u == 4 {
        Some(LogLevel::Info)
    } else if u == 5 {
        Some(LogLevel::Debug)
    } else if u == 6 {
        Some(LogLevel::Trace)
    } else {
        None
    }
}

/// Relies on `slog::Level::from_usize`: the level with the given number.
pub assume_specification[ LogLevel::from_usize ](u: usize) -> (r: Option<LogLevel>)
    ensures
        r == slog_level_at(u as int),
;

/// `slog`'s `LOG_LEVEL_NAMES`.
pub open spec fn log_level_names() -> Seq<Seq<char>> {
    seq!["OFF"@, "CRITICAL"@, "ERROR"@, "WARNING"@, "INFO"@, "DEBUG"@, "TRACE"@]
}

/// `slog`'s `LOG_LEVEL_SHORT_NAMES`.
pub open spec fn log_level_short_names() -> Seq<Seq<char>> {
    seq!["OFF"@, "CRIT"@, "ERRO"@, "WARN"@, "INFO"@, "DEBG"@, "TRCE"@]
}

/// Whether `needle` is a non-empty prefix of `hay`, ignoring ASCII case.
pub open spec fn abbreviates(hay: Seq<char>, needle: Seq<char>) -> bool {
    &&& 0 < needle.len() <= hay.len()
    &&& forall|i: int| 0 <= i < needle.len() ==> ascii_lower(hay[i]) == ascii_lower(needle[i])
}

/// The first position from `i` on of a name that `needle` abbreviates.
pub open spec fn first_abbreviated(names: Seq<Seq<char>>, needle: Seq<char>, i: nat) -> Option<nat>
    decreases names.len() - i,
{
    if i >= names.len() {
        None
    } else if abbreviates(names[i as int], needle) {
        Some(i)
    } else {
        first_abbreviated(names, needle, i + 1)
    }
}

/// The level of `slog` that a name parses as: the first of the level names,
/// then of the short names, that the name abbreviates.
pub open spec fn slog_level_named(name: Seq<char>) -> Result<LogLevel, ()> {
    let i = match first_abbreviated(log_level_names(), name, 0) {
        Some(i) => Some(i),
        None => first_abbreviated(log_level_short_names(), name, 0),
    };
    match i {
        Some(i) => match slog_level_at(i as int) {
            Some(l) => Ok(l),
            None => Err(()),
        },
        None => Err(()),
    }
}

/// Relies on `slog::Level`'s `FromStr`: a name that abbreviates one of
/// `LOG_LEVEL_NAMES`, else one of `LOG_LEVEL_SHORT_NAMES`, ignoring ASCII
/// case, names the level at its position.
pub assume_specification[ <LogLevel as std::str::FromStr>::from_str ](name: &str) -> (r: Result<LogLevel, ()>)
    ensures
        r == slog_level_named(name@),
;

} // verus!
