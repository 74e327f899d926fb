//! What starting the logger sets up, decided from its options: a coloured
//! console sink, an optional plain daily-file sink, and the verbosity limit.
use vstd::prelude::*;

use crate::layout::Layout;
use crate::level::LogLevel;
use crate::options::LoggerOptions;
use crate::text::{lower_case, pascal_case, text_view, to_lower_case, to_pascal_case};

verus! {

/// A sink that writes to daily rolling files.
pub struct FileSink {
    /// The directory of the files.
    pub directory: String,
    /// The start of the file names.
    pub file_prefix: String,
    /// How many files are kept, if limited.
    pub max_log_files: Option<usize>,
    /// The layout of the lines written to the files.
    pub layout: Layout,
}

/// Everything that starting the logger sets up.
pub struct LoggerPlan {
    /// The verbosity limit to install.
    pub level: LogLevel,
    /// The layout of the console lines.
    pub console: Layout,
    /// The file sink, when log files are on.
    pub file: Option<FileSink>,
}

/// The word `logger`, the file name prefix used when no prefix is set.
pub open spec fn fallback_file_prefix() -> Seq<char> {
    seq!['l', 'o', 'g', 'g', 'e', 'r']
}

/// The prefix shown on the lines: the option's prefix in PascalCase.
pub open spec fn shown_prefix(prefix: Option<String>) -> Option<Seq<char>> {
    match prefix {
        Some(p) => Some(pascal_case(p@)),
        None => None,
    }
}

/// The start of the file names: the shown prefix (or `logger`) in lower case.
pub open spec fn file_name_prefix(prefix: Option<String>) -> Seq<char> {
    match shown_prefix(prefix) {
        Some(p) => lower_case(p),
        None => lower_case(fallback_file_prefix()),
    }
}

/// Whether `plan` is what the options `o` call for.
pub open spec fn plan_follows(plan: LoggerPlan, o: LoggerOptions) -> bool {
    &&& plan.level == o.level
    &&& text_view(plan.console.prefix) == shown_prefix(o.prefix)
    &&& plan.console.color
    &&& (plan.file is Some <==> o.enable_file_logging)
    &&& plan.file matches Some(f) ==> {
        &&& f.directory@ == o.log_directory@
        &&& f.file_prefix@ == file_name_prefix(o.prefix)
        &&& f.max_log_files == (if o.retention_days > 0 {
            Some(o.retention_days as usize)
        } else {
            None::<usize>
        })
        &&& f.layout.prefix == plan.console.prefix
        &&& !f.layout.color
    }
}

/// Decides what starting the logger with the options `options` sets up.
pub fn plan_for(options: LoggerOptions) -> (r: LoggerPlan)
    ensures
        plan_follows(r, options),
{
    let prefix = match &options.prefix {
        Some(p) => Some(to_pascal_case(p.as_str())),
        None => None,
    };
    let console = Layout::new(prefix.clone(), true);
    let file = if options.enable_file_logging {
        let file_prefix = match &prefix {
            Some(p) => to_lower_case(p.as_str()),
            None => {
                let fallback = String::from_str("logger");
                proof {
                    reveal_strlit("logger");
                    assert(fallback@ =~= fallback_file_prefix());
                }
                to_lower_case(fallback.as_str())
            },
        };
        let max_log_files = if options.retention_days > 0 {
            Some(options.retention_days as usize)
        } else {
            None
        };
        Some(
            FileSink {
                directory: options.log_directory,
                file_prefix,
                max_log_files,
                layout: Layout::new(prefix, false),
            },
        )
    } else {
        None
    };
    LoggerPlan { level: options.level, console, file }
}

/// Decides what starting the logger sets up; without options the defaults apply.
pub fn plan(options: Option<LoggerOptions>) -> (r: LoggerPlan)
    ensures
        options matches Some(o) ==> plan_follows(r, o),
        options is None ==> exists|o: LoggerOptions| o.is_default() && plan_follows(r, o),
{
    match options {
        Some(o) => plan_for(o),
        None => {
            let o = LoggerOptions::default();
            let r = plan_for(o);
            r
        },
    }
}

} // verus!
