//! The `tracing` flavour of the logger: its options, how a level name is read,
//! and what starting it sets up.
use vstd::prelude::*;

use crate::level::LogLevel;
use crate::text::{
    lower_case, pascal_case, text_view, to_lower_case, to_pascal_case, to_unicode_lowercase,
    unicode_lowercase,
};
use crate::tracing_format::Formatter;

verus! {

/// Options of the `tracing` flavour of the logger.
pub struct LoggerOptions {
    /// The verbosity limit, by name (`trace`, `debug`, `info`, `warn`, `error`, `off`).
    pub level: String,
    /// Whether records also go to daily log files.
    pub enable_file_logging: bool,
    /// A prefix shown in front of every line.
    pub prefix: Option<String>,
    /// The directory of the log files.
    pub log_directory: Option<String>,
    /// How many daily log files are kept.
    pub retention_days: Option<u8>,
}

/// The name `info`.
pub open spec fn info_name() -> Seq<char> {
    seq!['i', 'n', 'f', 'o']
}

impl LoggerOptions {
    /// The defaults: level `info`, no log files, and nothing else set.
    pub open spec fn is_default(self) -> bool {
        &&& self.level@ == info_name()
        &&& !self.enable_file_logging
        &&& self.prefix is None
        &&& self.log_directory is None
        &&& self.retention_days is None
    }

    /// The default options.
    pub fn new() -> (r: Self)
        ensures
            r.is_default(),
    {
        Self::default()
    }

    /// Sets the level name; the other options stay as they are.
    pub fn with_level(self, level: &str) -> (r: Self)
        ensures
            r.level@ == level@,
            r.enable_file_logging == self.enable_file_logging,
            r.prefix == self.prefix,
            r.log_directory == self.log_directory,
            r.retention_days == self.retention_days,
    {
        let mut r = self;
        r.level = String::from_str(level);
        r
    }

    /// Turns log files on or off; the other options stay as they are.
    pub fn with_file_logging(self, enable: bool) -> (r: Self)
        ensures
            r.level == self.level,
            r.enable_file_logging == enable,
            r.prefix == self.prefix,
            r.log_directory == self.log_directory,
            r.retention_days == self.retention_days,
    {
        let mut r = self;
        r.enable_file_logging = enable;
        r
    }

    /// Sets the prefix; the other options stay as they are.
    pub fn with_prefix(self, prefix: &str) -> (r: Self)
        ensures
            r.level == self.level,
            r.enable_file_logging == self.enable_file_logging,
            r.prefix matches Some(p) && p@ == prefix@,
            r.log_directory == self.log_directory,
            r.retention_days == self.retention_days,
    {
        let mut r = self;
        r.prefix = Some(String::from_str(prefix));
        r
    }

    /// Sets the directory of the log files; the other options stay as they are.
    pub fn with_log_directory(self, directory: &str) -> (r: Self)
        ensures
            r.level == self.level,
            r.enable_file_logging == self.enable_file_logging,
            r.prefix == self.prefix,
            r.log_directory matches Some(d) && d@ == directory@,
            r.retention_days == self.retention_days,
    {
        let mut r = self;
        r.log_directory = Some(String::from_str(directory));
        r
    }

    /// Sets how many daily log files are kept; the other options stay as they are.
    pub fn with_retention_days(self, days: u8) -> (r: Self)
        ensures
            r.level == self.level,
            r.enable_file_logging == self.enable_file_logging,
            r.prefix == self.prefix,
            r.log_directory == self.log_directory,
            r.retention_days == Some(days),
    {
        let mut r = self;
        r.retention_days = Some(days);
        r
    }

    /// The options that a C caller describes field by field: the default options
    /// with file logging on when `enable_file_logging` is not zero, and the
    /// level, prefix and directory that are given; a retention of 0 keeps the default.
    pub fn from_c_fields(
        level: Option<String>,
        enable_file_logging: i32,
        prefix: Option<String>,
        log_directory: Option<String>,
        retention_days: u8,
    ) -> (r: Self)
        ensures
            r.level@ == match level {
                Some(v) => v@,
                None => info_name(),
            },
            r.enable_file_logging == (enable_file_logging != 0),
            text_view(r.prefix) == text_view(prefix),
            text_view(r.log_directory) == text_view(log_directory),
            r.retention_days == (if retention_days > 0 {
                Some(retention_days)
            } else {
                None
            }),
    {
        let mut o = LoggerOptions::default().with_file_logging(enable_file_logging != 0);
        if let Some(v) = level {
            o = o.with_level(v.as_str());
        }
        if let Some(v) = prefix {
            o = o.with_prefix(v.as_str());
        }
        if let Some(v) = log_directory {
            o = o.with_log_directory(v.as_str());
        }
        if retention_days > 0 {
            o = o.with_retention_days(retention_days);
        }
        o
    }
}

impl Default for LoggerOptions {
    fn default() -> (r: Self)
        ensures
            r.is_default(),
    {
        let level = String::from_str("info");
        proof {
            reveal_strlit("info");
            assert(level@ =~= info_name());
        }
        LoggerOptions {
            level,
            enable_file_logging: false,
            prefix: None,
            log_directory: None,
            retention_days: None,
        }
    }
}

/// The level a lower-case name stands for: `trace`, `debug`, `info`, `warn` or
/// `warning`, `error`, `off`; any other name stands for `Info`.
pub open spec fn level_named(t: Seq<char>) -> LogLevel {
    if t == "trace"@ {
        LogLevel::Trace
    } else if t == "debug"@ {
        LogLevel::Debug
    } else if t == "info"@ {
        LogLevel::Info
    } else if t == "warn"@ || t == "warning"@ {
        LogLevel::Warn
    } else if t == "error"@ {
        LogLevel::Error
    } else if t == "off"@ {
        LogLevel::Off
    } else {
        LogLevel::Info
    }
}

/// Whether `t` reads `word`.
fn text_is(t: &str, word: &str) -> (r: bool)
    ensures
        r == (t@ == word@),
{
    String::from_str(t) == String::from_str(word)
}

/// The level a lower-case name stands for.
pub fn level_from_lowercase(t: &str) -> (r: LogLevel)
    ensures
        r == level_named(t@),
{
    if text_is(t, "trace") {
        LogLevel::Trace
    } else if text_is(t, "debug") {
        LogLevel::Debug
    } else if text_is(t, "info") {
        LogLevel::Info
    } else if text_is(t, "warn") || text_is(t, "warning") {
        LogLevel::Warn
    } else if text_is(t, "error") {
        LogLevel::Error
    } else if text_is(t, "off") {
        LogLevel::Off
    } else {
        LogLevel::Info
    }
}

/// The level a name stands for, whatever its letter case; unknown names stand for `Info`.
pub fn parse_level(s: &str) -> (r: LogLevel)
    ensures
        r == level_named(unicode_lowercase(s@)),
{
    let lowered = to_unicode_lowercase(s);
    level_from_lowercase(lowered.as_str())
}

/// `warning` is read as `warn`, and a name that is none of the known ones is read as `info`.
pub proof fn lemma_level_names(t: Seq<char>)
    ensures
        level_named("warning"@) == LogLevel::Warn,
        level_named("warn"@) == LogLevel::Warn,
        level_named("off"@) == LogLevel::Off,
        t != "trace"@ && t != "debug"@ && t != "warn"@ && t != "warning"@ && t != "error"@ && t
            != "off"@ ==> level_named(t) == LogLevel::Info,
{
    reveal_strlit("trace");
    reveal_strlit("debug");
    reveal_strlit("info");
    reveal_strlit("warn");
    reveal_strlit("warning");
    reveal_strlit("error");
    reveal_strlit("off");
    assert("warn"@[0] != "trace"@[0] && "warn"@[0] != "debug"@[0] && "warn"@[0] != "info"@[0]);
    assert("warning"@[0] != "trace"@[0] && "warning"@[0] != "debug"@[0] && "warning"@[0]
        != "info"@[0]);
    assert("warning"@.len() != "warn"@.len());
    assert("off"@[0] != "trace"@[0] && "off"@[0] != "debug"@[0] && "off"@[0] != "info"@[0]
        && "off"@[0] != "warn"@[0] && "off"@[0] != "error"@[0]);
    assert("off"@.len() != "warning"@.len());
}

/// A sink of the `tracing` flavour that writes to daily rolling files.
pub struct TracingFileSink {
    /// The directory of the files.
    pub directory: String,
    /// The start of the file names.
    pub file_prefix: String,
    /// How many files are kept.
    pub max_log_files: usize,
    /// How the lines written to the files are formatted.
    pub formatter: Formatter,
}

/// Everything that starting the `tracing` flavour sets up.
pub struct TracingPlan {
    /// The verbosity limit of both sinks.
    pub level: LogLevel,
    /// How the console lines are formatted.
    pub console: Formatter,
    /// The file sink, when log files are on.
    pub file: Option<TracingFileSink>,
}

/// The word `puniyu`, the prefix used when none is set.
pub open spec fn fallback_prefix() -> Seq<char> {
    seq!['p', 'u', 'n', 'i', 'y', 'u']
}

/// The prefix the options call for, before case conversion.
pub open spec fn raw_prefix(o: LoggerOptions) -> Seq<char> {
    match o.prefix {
        Some(p) => p@,
        None => fallback_prefix(),
    }
}

/// Whether `plan` is what the options `o` call for.
pub open spec fn tracing_plan_follows(plan: TracingPlan, o: LoggerOptions) -> bool {
    &&& plan.level == level_named(unicode_lowercase(o.level@))
    &&& plan.console.prefix@ == pascal_case(raw_prefix(o))
    &&& plan.console.color
    &&& (plan.file is Some <==> o.enable_file_logging)
    &&& plan.file matches Some(f) ==> {
        &&& f.directory@ == match o.log_directory {
            Some(d) => d@,
            None => crate::options::default_directory(),
        }
        &&& f.file_prefix@ == lower_case(raw_prefix(o))
        &&& f.max_log_files == match o.retention_days {
            Some(days) => days as usize,
            None => 7usize,
        }
        &&& f.formatter.prefix == plan.console.prefix
        &&& !f.formatter.color
    }
}

/// Decides what starting the `tracing` flavour with the options `options` sets up.
pub fn tracing_plan_for(options: LoggerOptions) -> (r: TracingPlan)
    ensures
        tracing_plan_follows(r, options),
{
    let level = parse_level(options.level.as_str());
    let raw = match &options.prefix {
        Some(p) => p.clone(),
        None => {
            let fallback = String::from_str("puniyu");
            proof {
                reveal_strlit("puniyu");
                assert(fallback@ =~= fallback_prefix());
            }
            fallback
        },
    };
    let shown = to_pascal_case(raw.as_str());
    let console = Formatter::new(shown.clone(), true);
    let file = if options.enable_file_logging {
        let directory = match options.log_directory {
            Some(d) => d,
            None => {
                let d = String::from_str("logs");
                proof {
                    reveal_strlit("logs");
                    assert(d@ =~= crate::options::default_directory());
                }
                d
            },
        };
        let max_log_files = match options.retention_days {
            Some(days) => days as usize,
            None => 7usize,
        };
        Some(
            TracingFileSink {
                directory,
                file_prefix: to_lower_case(raw.as_str()),
                max_log_files,
                formatter: Formatter::new(shown, false),
            },
        )
    } else {
        None
    };
    TracingPlan { level, console, file }
}

/// Decides what starting the `tracing` flavour sets up; without options the defaults apply.
pub fn tracing_plan(options: Option<LoggerOptions>) -> (r: TracingPlan)
    ensures
        options matches Some(o) ==> tracing_plan_follows(r, o),
        options is None ==> exists|o: LoggerOptions| o.is_default() && tracing_plan_follows(r, o),
{
    match options {
        Some(o) => tracing_plan_for(o),
        None => tracing_plan_for(LoggerOptions::default()),
    }
}

} // verus!
