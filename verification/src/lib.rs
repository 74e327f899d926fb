//! Log level handling, record filtering and line layout for a small logger.
use vstd::prelude::*;

pub mod color;
pub mod filter;
pub mod layout;
pub mod level;
pub mod options;
pub mod setup;
pub mod text;
pub mod tracing_format;
pub mod tracing_setup;

use crate::level::LogLevel;

verus! {

/// Reads `log::max_level`, the `log` facade's process-wide verbosity limit,
/// and gives the level of the same name for each of its six variants. The limit
/// is global state that any thread may change, so nothing is claimed of the value.
#[verifier::external_body]
pub(crate) fn log_max_level() -> LogLevel {
    match log::max_level() {
        log::LevelFilter::Off => LogLevel::Off,
        log::LevelFilter::Error => LogLevel::Error,
        log::LevelFilter::Warn => LogLevel::Warn,
        log::LevelFilter::Info => LogLevel::Info,
        log::LevelFilter::Debug => LogLevel::Debug,
        log::LevelFilter::Trace => LogLevel::Trace,
    }
}

/// Calls `log::set_max_level` with the `log` filter of the same name as `level`.
#[verifier::external_body]
fn log_set_max_level(level: LogLevel) {
    log::set_max_level(match level {
        LogLevel::Off => log::LevelFilter::Off,
        LogLevel::Error => log::LevelFilter::Error,
        LogLevel::Warn => log::LevelFilter::Warn,
        LogLevel::Info => log::LevelFilter::Info,
        LogLevel::Debug => log::LevelFilter::Debug,
        LogLevel::Trace => log::LevelFilter::Trace,
    })
}

/// Sets the runtime verbosity limit.
pub fn set_level(level: LogLevel) {
    log_set_max_level(level)
}

/// The runtime verbosity limit.
pub fn get_level() -> LogLevel {
    log_max_level()
}

} // verus!
