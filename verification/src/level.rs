//! Verbosity levels, record severities and how the two are compared.
//!
//! A logger is limited to a [`LogLevel`]; a record carries a severity number in
//! `1..=24` (the OpenTelemetry scale that logforth uses: 1..4 TRACE, 5..8 DEBUG,
//! 9..12 INFO, 13..16 WARN, 17..20 ERROR, 21..24 FATAL).
use vstd::prelude::*;

verus! {

/// The verbosity a logger is limited to.
#[derive(Clone, Copy, Debug, PartialEq, Eq, Structural)]
pub enum LogLevel {
    Trace,
    Debug,
    Info,
    Warn,
    Error,
    Off,
}

/// A severity threshold in the logforth style: nothing passes, or every record
/// whose severity number is at least the given one passes.
#[derive(Clone, Copy, Debug, PartialEq, Eq, Structural)]
pub enum LevelThreshold {
    Off,
    AtLeast(u8),
}

/// A logforth record level: an enum whose `u8` discriminant is the severity number.
#[verifier::external_type_specification]
#[verifier::external_body]
pub struct ExRecordLevel(logforth::record::Level);

/// The severity number of a logforth record level: the enum's `u8` discriminant.
pub uninterp spec fn record_severity(level: logforth::record::Level) -> u8;

/// Reads a logforth record level: its severity number (the enum's `u8`
/// discriminant, 1 for TRACE up to 24 for FATAL4) and the name that
/// `Level::name` gives it, which logforth takes from a table indexed by that number.
#[verifier::external_body]
pub(crate) fn describe_record_level(level: logforth::record::Level) -> (r: (u8, &'static str))
    ensures
        r.0 == record_severity(level),
        is_severity(r.0 as int),
        r.1@ == severity_name(r.0 as int),
{
    (level as u8, level.name())
}

/// The name of a group of four severities: TRACE, DEBUG, INFO, WARN, ERROR, FATAL.
pub open spec fn group_name(group: int) -> Seq<char> {
    if group == 0 {
        seq!['T', 'R', 'A', 'C', 'E']
    } else if group == 1 {
        seq!['D', 'E', 'B', 'U', 'G']
    } else if group == 2 {
        seq!['I', 'N', 'F', 'O']
    } else if group == 3 {
        seq!['W', 'A', 'R', 'N']
    } else if group == 4 {
        seq!['E', 'R', 'R', 'O', 'R']
    } else {
        seq!['F', 'A', 'T', 'A', 'L']
    }
}

/// The name of a severity: the group's name, followed by 2, 3 or 4 for the
/// second, third and fourth severity of the group ("INFO", "INFO2", ...).
pub open spec fn severity_name(n: int) -> Seq<char> {
    let group = (n - 1) / 4;
    let offset = (n - 1) % 4;
    if offset == 0 {
        group_name(group)
    } else if offset == 1 {
        group_name(group).push('2')
    } else if offset == 2 {
        group_name(group).push('3')
    } else {
        group_name(group).push('4')
    }
}

/// Severity numbers that a record can carry.
pub open spec fn is_severity(n: int) -> bool {
    1 <= n <= 24
}

/// The verbosity level a severity number belongs to: FATAL records count as errors.
pub open spec fn category(n: int) -> LogLevel {
    if n >= 17 {
        LogLevel::Error
    } else if n >= 13 {
        LogLevel::Warn
    } else if n >= 9 {
        LogLevel::Info
    } else if n >= 5 {
        LogLevel::Debug
    } else {
        LogLevel::Trace
    }
}

/// Whether a logger limited to `max` lets a record of severity `n` through.
pub open spec fn admits(max: LogLevel, n: int) -> bool {
    max != LogLevel::Off && category(n).rank() <= max.rank()
}

/// Whether a threshold lets a record of severity `n` through.
pub open spec fn threshold_admits(t: LevelThreshold, n: int) -> bool {
    match t {
        LevelThreshold::Off => false,
        LevelThreshold::AtLeast(floor) => n >= floor,
    }
}

impl LogLevel {
    /// How much a level lets through: `Off` nothing, `Trace` everything.
    pub open spec fn rank(self) -> nat {
        match self {
            LogLevel::Off => 0,
            LogLevel::Error => 1,
            LogLevel::Warn => 2,
            LogLevel::Info => 3,
            LogLevel::Debug => 4,
            LogLevel::Trace => 5,
        }
    }

    /// The lowest severity number of the level; `Off` is mapped as `Trace`.
    pub open spec fn floor(self) -> nat {
        match self {
            LogLevel::Error => 17,
            LogLevel::Warn => 13,
            LogLevel::Info => 9,
            LogLevel::Debug => 5,
            LogLevel::Trace => 1,
            LogLevel::Off => 1,
        }
    }

    /// The threshold that corresponds to the level.
    pub open spec fn threshold_spec(self) -> LevelThreshold {
        match self {
            LogLevel::Off => LevelThreshold::Off,
            _ => LevelThreshold::AtLeast(self.floor() as u8),
        }
    }

    /// The rank of the level, as a number.
    pub fn verbosity(&self) -> (r: u8)
        ensures
            r == self.rank(),
    {
        match self {
            LogLevel::Off => 0,
            LogLevel::Error => 1,
            LogLevel::Warn => 2,
            LogLevel::Info => 3,
            LogLevel::Debug => 4,
            LogLevel::Trace => 5,
        }
    }

    /// The severity number of the level's plain variant (`Off` gives TRACE's).
    pub fn severity(&self) -> (r: u8)
        ensures
            r == self.floor(),
            is_severity(r as int),
    {
        match self {
            LogLevel::Error => 17,
            LogLevel::Warn => 13,
            LogLevel::Info => 9,
            LogLevel::Debug => 5,
            LogLevel::Trace => 1,
            LogLevel::Off => 1,
        }
    }

    /// The threshold that lets through exactly the severities at or above the level.
    pub fn threshold(&self) -> (r: LevelThreshold)
        ensures
            r == self.threshold_spec(),
    {
        match self {
            LogLevel::Off => LevelThreshold::Off,
            _ => LevelThreshold::AtLeast(self.severity()),
        }
    }

    /// The level a severity number belongs to.
    pub fn of_severity(n: u8) -> (r: LogLevel)
        requires
            is_severity(n as int),
        ensures
            r == category(n as int),
            r != LogLevel::Off,
    {
        if n >= 17 {
            LogLevel::Error
        } else if n >= 13 {
            LogLevel::Warn
        } else if n >= 9 {
            LogLevel::Info
        } else if n >= 5 {
            LogLevel::Debug
        } else {
            LogLevel::Trace
        }
    }
}

/// Whether a logger limited to `max` lets a record of severity `n` through.
pub fn lets_through(max: LogLevel, n: u8) -> (r: bool)
    requires
        is_severity(n as int),
    ensures
        r == admits(max, n as int),
{
    if max == LogLevel::Off {
        return false;
    }
    let request = LogLevel::of_severity(n);
    request.verbosity() <= max.verbosity()
}

/// A logger limited to `Off` lets no record through.
pub proof fn lemma_off_admits_nothing(n: int)
    ensures
        !admits(LogLevel::Off, n),
{
}

/// A logger limited to `Trace` lets every record through, and every logger
/// that is not `Off` lets ERROR and FATAL records through.
pub proof fn lemma_trace_admits_all(max: LogLevel, n: int)
    requires
        is_severity(n),
    ensures
        admits(LogLevel::Trace, n),
        max != LogLevel::Off && n >= 17 ==> admits(max, n),
{
}

/// Raising the level never lets fewer records through.
pub proof fn lemma_admits_monotone(lower: LogLevel, higher: LogLevel, n: int)
    requires
        lower.rank() <= higher.rank(),
        admits(lower, n),
    ensures
        admits(higher, n),
{
}

/// More severe records are let through whenever less severe ones are.
pub proof fn lemma_admits_severity_monotone(max: LogLevel, n: int, m: int)
    requires
        is_severity(n),
        is_severity(m),
        n <= m,
        admits(max, n),
    ensures
        admits(max, m),
{
}

/// A level's threshold lets through exactly the records that the level does.
pub proof fn lemma_threshold_matches_level(max: LogLevel, n: int)
    requires
        is_severity(n),
    ensures
        threshold_admits(max.threshold_spec(), n) == admits(max, n),
{
}

/// Under a limit other than `Off`, records of the limit's own level pass.
pub proof fn lemma_own_level_admitted(max: LogLevel)
    requires
        max != LogLevel::Off,
    ensures
        admits(max, max.floor() as int),
{
}

/// The level of a level's own severity number is the level itself.
pub proof fn lemma_severity_round_trip(level: LogLevel)
    requires
        level != LogLevel::Off,
    ensures
        category(level.floor() as int) == level,
{
}

} // verus!
