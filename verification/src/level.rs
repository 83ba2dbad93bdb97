//! The five severities and the total order used for threshold filtering.

use vstd::prelude::*;
use crate::text::str_eq;

verus! {

/// One of the five log severities, ordered from least to most severe:
/// `Trace < Debug < Info < Warn < Error`.
#[derive(Clone, Copy, PartialEq, Eq, Structural, Debug)]
pub enum LogLevel {
    Trace,
    Debug,
    Info,
    Warn,
    Error,
}

/// Position of a severity in the fixed order `Trace < Debug < Info < Warn < Error`.
pub open spec fn ordinal(level: LogLevel) -> int {
    match level {
        LogLevel::Trace => 0,
        LogLevel::Debug => 1,
        LogLevel::Info => 2,
        LogLevel::Warn => 3,
        LogLevel::Error => 4,
    }
}

/// A record at severity `record` is emitted under threshold `threshold`
/// exactly when its ordinal is at least the threshold's.
pub open spec fn spec_passes(record: LogLevel, threshold: LogLevel) -> bool {
    ordinal(record) >= ordinal(threshold)
}

/// Ordinal of a severity as a machine integer.
pub fn level_ordinal(level: LogLevel) -> (n: u8)
    ensures
        n as int == ordinal(level),
{
    match level {
        LogLevel::Trace => 0,
        LogLevel::Debug => 1,
        LogLevel::Info => 2,
        LogLevel::Warn => 3,
        LogLevel::Error => 4,
    }
}

/// Filtering rule: true exactly when a record at severity `record` passes
/// threshold `threshold` under `Trace < Debug < Info < Warn < Error`.
pub fn passes(record: LogLevel, threshold: LogLevel) -> (r: bool)
    ensures
        r == spec_passes(record, threshold),
{
    level_ordinal(record) >= level_ordinal(threshold)
}

/// Total-order comparison of two severities under
/// `Trace < Debug < Info < Warn < Error`.
pub fn compare(a: LogLevel, b: LogLevel) -> (r: core::cmp::Ordering)
    ensures
        r == core::cmp::Ordering::Less <==> ordinal(a) < ordinal(b),
        r == core::cmp::Ordering::Equal <==> ordinal(a) == ordinal(b),
        r == core::cmp::Ordering::Greater <==> ordinal(a) > ordinal(b),
{
    let x = level_ordinal(a);
    let y = level_ordinal(b);
    if x < y {
        core::cmp::Ordering::Less
    } else if x == y {
        core::cmp::Ordering::Equal
    } else {
        core::cmp::Ordering::Greater
    }
}

/// The canonical (upper-case) name of a severity.
pub open spec fn spec_level_name(level: LogLevel) -> Seq<char> {
    match level {
        LogLevel::Trace => "TRACE"@,
        LogLevel::Debug => "DEBUG"@,
        LogLevel::Info => "INFO"@,
        LogLevel::Warn => "WARN"@,
        LogLevel::Error => "ERROR"@,
    }
}

/// The canonical name of a severity, as written by the structured sinks and
/// accepted back by `parse_level`.
pub fn level_name(level: LogLevel) -> (s: &'static str)
    ensures
        s@ == spec_level_name(level),
{
    match level {
        LogLevel::Trace => "TRACE",
        LogLevel::Debug => "DEBUG",
        LogLevel::Info => "INFO",
        LogLevel::Warn => "WARN",
        LogLevel::Error => "ERROR",
    }
}

/// The severity a textual level names, `None` for anything but the five
/// canonical names.
pub open spec fn spec_parse_level(name: Seq<char>) -> Option<LogLevel> {
    if name == "TRACE"@ {
        Some(LogLevel::Trace)
    } else if name == "DEBUG"@ {
        Some(LogLevel::Debug)
    } else if name == "INFO"@ {
        Some(LogLevel::Info)
    } else if name == "WARN"@ {
        Some(LogLevel::Warn)
    } else if name == "ERROR"@ {
        Some(LogLevel::Error)
    } else {
        None
    }
}

/// Parse one of the five canonical severity names; any other text is
/// rejected with `None`.
pub fn parse_level(name: &str) -> (r: Option<LogLevel>)
    ensures
        r == spec_parse_level(name@),
{
    if str_eq(name, "TRACE") {
        Some(LogLevel::Trace)
    } else if str_eq(name, "DEBUG") {
        Some(LogLevel::Debug)
    } else if str_eq(name, "INFO") {
        Some(LogLevel::Info)
    } else if str_eq(name, "WARN") {
        Some(LogLevel::Warn)
    } else if str_eq(name, "ERROR") {
        Some(LogLevel::Error)
    } else {
        None
    }
}

/// Every severity's canonical name parses back to that severity.
pub proof fn lemma_level_name_round_trip(level: LogLevel)
    ensures
        spec_parse_level(spec_level_name(level)) == Some(level),
{
    reveal_strlit("TRACE");
    reveal_strlit("DEBUG");
    reveal_strlit("INFO");
    reveal_strlit("WARN");
    reveal_strlit("ERROR");
    match level {
        LogLevel::Trace => {
        },
        LogLevel::Debug => {
            assert("DEBUG"@[0] != "TRACE"@[0]);
        },
        LogLevel::Info => {
            assert("INFO"@.len() != "TRACE"@.len());
            assert("INFO"@.len() != "DEBUG"@.len());
        },
        LogLevel::Warn => {
            assert("WARN"@.len() != "TRACE"@.len());
            assert("WARN"@.len() != "DEBUG"@.len());
            assert("WARN"@[0] != "INFO"@[0]);
        },
        LogLevel::Error => {
            assert("ERROR"@[0] != "TRACE"@[0]);
            assert("ERROR"@[0] != "DEBUG"@[0]);
            assert("ERROR"@.len() != "INFO"@.len());
            assert("ERROR"@.len() != "WARN"@.len());
        },
    }
}

} // verus!
