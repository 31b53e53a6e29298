//! Severity levels and the minimum-severity filter predicate.

use vstd::prelude::*;

verus! {

/// Severity of a log record, from least to most severe.
#[derive(Clone, Copy, PartialEq, Eq, Structural, Debug)]
pub enum Level {
    Trace,
    Debug,
    Info,
    Warn,
    Error,
}

/// Numeric rank of a severity: higher means more severe.
pub open spec fn severity(l: Level) -> int {
    match l {
        Level::Trace => 0,
        Level::Debug => 1,
        Level::Info => 2,
        Level::Warn => 3,
        Level::Error => 4,
    }
}

impl Level {
    /// Executable severity rank, equal to `severity`.
    pub fn rank(&self) -> (r: u8)
        ensures
            r as int == severity(*self),
    {
        match self {
            Level::Trace => 0,
            Level::Debug => 1,
            Level::Info => 2,
            Level::Warn => 3,
            Level::Error => 4,
        }
    }

    /// The filter directive that selects this level as the minimum severity,
    /// in the `target=level` expression language's spelling of a bare level.
    pub fn directive_str(&self) -> (r: &'static str)
        ensures
            r@ == directive_seq(*self),
    {
        match self {
            Level::Trace => "trace",
            Level::Debug => "debug",
            Level::Info => "info",
            Level::Warn => "warn",
            Level::Error => "error",
        }
    }
}

/// The spelling of each level as a bare filter directive.
pub open spec fn directive_seq(l: Level) -> Seq<char> {
    match l {
        Level::Trace => "trace"@,
        Level::Debug => "debug"@,
        Level::Info => "info"@,
        Level::Warn => "warn"@,
        Level::Error => "error"@,
    }
}

/// Whether a record of severity `record` passes a filter whose minimum
/// severity is `filter`: exactly the records at least as severe as the
/// minimum are delivered.
pub fn passes(filter: Level, record: Level) -> (r: bool)
    ensures
        r == (severity(record) >= severity(filter)),
{
    record.rank() >= filter.rank()
}

} // verus!
