//! What the logger is set up with.
use vstd::prelude::*;

use crate::level::LogLevel;

verus! {

/// Options of the logger.
pub struct LoggerOptions {
    /// The verbosity limit.
    pub level: LogLevel,
    /// Whether records also go to daily log files.
    pub enable_file_logging: bool,
    /// A prefix shown in front of every line.
    pub prefix: Option<String>,
    /// The directory of the log files.
    pub log_directory: String,
    /// How many daily log files are kept (0 keeps them all).
    pub retention_days: u8,
}

/// The directory `logs`.
pub open spec fn default_directory() -> Seq<char> {
    seq!['l', 'o', 'g', 's']
}

impl LoggerOptions {
    /// The defaults: `Info`, no log files, no prefix, directory `logs`, seven days kept.
    pub open spec fn is_default(self) -> bool {
        &&& self.level == LogLevel::Info
        &&& !self.enable_file_logging
        &&& self.prefix is None
        &&& self.log_directory@ == default_directory()
        &&& self.retention_days == 7
    }

    /// The default options.
    pub fn new() -> (r: Self)
        ensures
            r.is_default(),
    {
        Self::default()
    }

    /// Sets the verbosity limit; the other options stay as they are.
    pub fn with_level(self, level: LogLevel) -> (r: Self)
        ensures
            r.level == level,
            r.enable_file_logging == self.enable_file_logging,
            r.prefix == self.prefix,
            r.log_directory == self.log_directory,
            r.retention_days == self.retention_days,
    {
        let mut r = self;
        r.level = level;
        r
    }

    /// Turns log files on or off; the other options stay as they are.
    pub fn with_file_logging(self, enable: bool) -> (r: Self)
        ensures
            r.level == self.level,
            r.enable_file_logging == enable,
            r.prefix == self.prefix,
            r.log_directory == self.log_directory,
            r.retention_days == self.retention_days,
    {
        let mut r = self;
        r.enable_file_logging = enable;
        r
    }

    /// Sets the prefix; the other options stay as they are.
    pub fn with_prefix(self, prefix: &str) -> (r: Self)
        ensures
            r.level == self.level,
            r.enable_file_logging == self.enable_file_logging,
            r.prefix matches Some(p) && p@ == prefix@,
            r.log_directory == self.log_directory,
            r.retention_days == self.retention_days,
    {
        let mut r = self;
        r.prefix = Some(String::from_str(prefix));
        r
    }

    /// Sets the directory of the log files; the other options stay as they are.
    pub fn with_log_directory(self, directory: &str) -> (r: Self)
        ensures
            r.level == self.level,
            r.enable_file_logging == self.enable_file_logging,
            r.prefix == self.prefix,
            r.log_directory@ == directory@,
            r.retention_days == self.retention_days,
    {
        let mut r = self;
        r.log_directory = String::from_str(directory);
        r
    }

    /// Sets how many daily log files are kept; the other options stay as they are.
    pub fn with_retention_days(self, days: u8) -> (r: Self)
        ensures
            r.level == self.level,
            r.enable_file_logging == self.enable_file_logging,
            r.prefix == self.prefix,
            r.log_directory == self.log_directory,
            r.retention_days == days,
    {
        let mut r = self;
        r.retention_days = days;
        r
    }
}

impl Default for LoggerOptions {
    fn default() -> (r: Self)
        ensures
            r.is_default(),
    {
        let log_directory = String::from_str("logs");
        proof {
            reveal_strlit("logs");
            assert(log_directory@ =~= default_directory());
        }
        LoggerOptions {
            level: LogLevel::Info,
            enable_file_logging: false,
            prefix: None,
            log_directory,
            retention_days: 7,
        }
    }
}

} // verus!
