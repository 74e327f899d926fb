//! The record filter: a record passes when the `log` facade's current
//! verbosity limit admits its severity.
use vstd::prelude::*;

use crate::level::{admits, describe_record_level, is_severity, record_severity, LogLevel};

verus! {

/// The answer of a filter about one record.
#[derive(Clone, Copy, Debug, PartialEq, Eq, Structural)]
pub enum FilterOutcome {
    /// Process the record without asking further filters.
    Accept,
    /// Drop the record.
    Reject,
    /// Leave the decision to further filters.
    Neutral,
}

/// A filter that follows the `log` facade's verbosity limit.
#[derive(Clone, Copy, Debug)]
pub struct LevelFilter;

/// What the filter answers for a record of severity `n` under the limit `max`.
pub open spec fn outcome(max: LogLevel, n: int) -> FilterOutcome {
    if admits(max, n) {
        FilterOutcome::Neutral
    } else {
        FilterOutcome::Reject
    }
}

impl LevelFilter {
    pub fn new() -> Self {
        LevelFilter
    }

    /// The answer for a record of severity `severity` when the limit is `max`:
    /// `Reject` under `Off` and for records less severe than the limit, `Neutral` otherwise.
    pub fn decide(&self, max: LogLevel, severity: u8) -> (r: FilterOutcome)
        requires
            is_severity(severity as int),
        ensures
            r == outcome(max, severity as int),
    {
        if crate::level::lets_through(max, severity) {
            FilterOutcome::Neutral
        } else {
            FilterOutcome::Reject
        }
    }

    /// The answer for a record of the given level under the limit that the
    /// `log` facade holds at the time of the call.
    pub fn enabled(&self, level: logforth::record::Level) -> (r: FilterOutcome)
        ensures
            is_severity(record_severity(level) as int),
            exists|max: LogLevel| r == outcome(max, record_severity(level) as int),
            r != FilterOutcome::Accept,
    {
        let max = crate::log_max_level();
        let (severity, _) = describe_record_level(level);
        self.decide(max, severity)
    }
}

} // verus!
