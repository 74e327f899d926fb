use std::time::{Duration, SystemTime};

use logforth::record::Level;
use puniyu_logger::color::{paint, Color};
use puniyu_logger::filter::{FilterOutcome, LevelFilter};
use puniyu_logger::layout::{clock_or_placeholder, format_timestamp, Layout};
use puniyu_logger::level::{lets_through, LevelThreshold, LogLevel};
use puniyu_logger::options::LoggerOptions;
use puniyu_logger::setup::plan;
use puniyu_logger::text::{pad_right, strip_message};
use puniyu_logger::tracing_format::{Formatter, MessageVisitor};
use puniyu_logger::tracing_setup::{level_from_lowercase, parse_level, tracing_plan, LoggerOptions as TracingOptions};

#[test]
fn level_numbers() {
    assert_eq!(LogLevel::Off.verbosity(), 0);
    assert_eq!(LogLevel::Error.verbosity(), 1);
    assert_eq!(LogLevel::Trace.verbosity(), 5);
    assert_eq!(LogLevel::Error.severity(), 17);
    assert_eq!(LogLevel::Warn.severity(), 13);
    assert_eq!(LogLevel::Info.severity(), 9);
    assert_eq!(LogLevel::Debug.severity(), 5);
    assert_eq!(LogLevel::Trace.severity(), 1);
    assert_eq!(LogLevel::Off.severity(), 1);
    assert_eq!(LogLevel::Off.threshold(), LevelThreshold::Off);
    assert_eq!(LogLevel::Warn.threshold(), LevelThreshold::AtLeast(13));
}

#[test]
fn severity_groups() {
    assert_eq!(LogLevel::of_severity(1), LogLevel::Trace);
    assert_eq!(LogLevel::of_severity(4), LogLevel::Trace);
    assert_eq!(LogLevel::of_severity(5), LogLevel::Debug);
    assert_eq!(LogLevel::of_severity(12), LogLevel::Info);
    assert_eq!(LogLevel::of_severity(13), LogLevel::Warn);
    assert_eq!(LogLevel::of_severity(20), LogLevel::Error);
    assert_eq!(LogLevel::of_severity(24), LogLevel::Error);
}

#[test]
fn off_lets_nothing_through() {
    for n in 1..=24u8 {
        assert!(!lets_through(LogLevel::Off, n));
        assert!(lets_through(LogLevel::Trace, n));
    }
}

#[test]
fn threshold_agrees_with_filter() {
    for level in [LogLevel::Off, LogLevel::Error, LogLevel::Warn, LogLevel::Info, LogLevel::Debug, LogLevel::Trace] {
        for n in 1..=24u8 {
            let by_threshold = match level.threshold() {
                LevelThreshold::Off => false,
                LevelThreshold::AtLeast(floor) => n >= floor,
            };
            assert_eq!(by_threshold, lets_through(level, n));
        }
    }
}

#[test]
fn filter_decisions() {
    let f = LevelFilter::new();
    assert_eq!(f.decide(LogLevel::Info, 9), FilterOutcome::Neutral);
    assert_eq!(f.decide(LogLevel::Info, 8), FilterOutcome::Reject);
    assert_eq!(f.decide(LogLevel::Error, 21), FilterOutcome::Neutral);
    assert_eq!(f.decide(LogLevel::Error, 16), FilterOutcome::Reject);
    assert_eq!(f.decide(LogLevel::Off, 24), FilterOutcome::Reject);
}

#[test]
fn level_column_plain_and_coloured() {
    let plain = Layout::new(None, false);
    assert_eq!(plain.render_level("INFO", 9), "INFO   ");
    assert_eq!(plain.format_level(Level::Fatal), "FATAL  ");
    assert_eq!(plain.format_level(Level::Debug3), "DEBUG3 ");
    let coloured = Layout::new(None, true);
    assert_eq!(coloured.render_level("INFO", 9), "\x1b[32mINFO   \x1b[39m");
    assert_eq!(coloured.format_level(Level::Error2), "\x1b[31mERROR2 \x1b[39m");
    assert_eq!(coloured.format_level(Level::Fatal4), "\x1b[31mFATAL4 \x1b[39m");
    assert_eq!(coloured.format_level(Level::Warn), "\x1b[33mWARN   \x1b[39m");
    assert_eq!(coloured.format_level(Level::Debug), "\x1b[34mDEBUG  \x1b[39m");
    assert_eq!(coloured.format_level(Level::Trace2), "\x1b[35mTRACE2 \x1b[39m");
}

#[test]
fn colours() {
    assert_eq!(paint(Color::Red, "x"), "\x1b[31mx\x1b[39m");
    assert_eq!(paint(Color::Green, "x"), "\x1b[32mx\x1b[39m");
    assert_eq!(paint(Color::Yellow, "x"), "\x1b[33mx\x1b[39m");
    assert_eq!(paint(Color::Blue, "x"), "\x1b[34mx\x1b[39m");
    assert_eq!(paint(Color::Magenta, "x"), "\x1b[35mx\x1b[39m");
}

#[test]
fn padding() {
    assert_eq!(pad_right("ab", 4), "ab  ");
    assert_eq!(pad_right("abcdef", 4), "abcdef");
    assert_eq!(pad_right("", 0), "");
}

#[test]
fn stripping_escapes() {
    assert_eq!(strip_message("\x1b[31mred\x1b[0m text"), "red text");
    assert_eq!(strip_message("plain"), "plain");
}

#[test]
fn prefix_column() {
    assert_eq!(Layout::new(Some("Bot".to_string()), false).render_prefix(), "[Bot] ");
    assert_eq!(Layout::new(Some("Bot".to_string()), true).render_prefix(), "[\x1b[35mBot\x1b[39m] ");
    assert_eq!(Layout::new(None, true).render_prefix(), "");
}

#[test]
fn whole_lines() {
    let plain = Layout::new(Some("Bot".to_string()), false);
    assert_eq!(
        plain.render_line("12:00:00.000", "INFO", 9, "\x1b[1mhello\x1b[0m"),
        "[Bot] [12:00:00.000] [INFO   ] hello"
    );
    let coloured = Layout::new(None, true);
    assert_eq!(
        coloured.render_line("12:00:00.000", "WARN", 13, "\x1b[1mhello\x1b[0m"),
        "[12:00:00.000] [\x1b[33mWARN   \x1b[39m] \x1b[1mhello\x1b[0m"
    );
}

#[test]
fn clock() {
    assert_eq!(clock_or_placeholder(None), "00:00:00.000");
    assert_eq!(clock_or_placeholder(Some("01:02:03.004".to_string())), "01:02:03.004");
    let epoch = format_timestamp(SystemTime::UNIX_EPOCH);
    assert!(epoch == "08:00:00.000" || epoch == "00:00:00.000");
    let later = format_timestamp(SystemTime::UNIX_EPOCH + Duration::from_millis(3_723_456));
    assert!(later == "09:02:03.456" || later == "00:00:00.000");
}

#[test]
fn record_layout() {
    let layout = Layout::new(Some("Bot".to_string()), false);
    let line = layout.format(SystemTime::UNIX_EPOCH, Level::Warn, "disk low");
    assert!(line.starts_with("[Bot] ["));
    assert!(line.ends_with("] [WARN   ] disk low"));
    assert_eq!(line.len(), "[Bot] [00:00:00.000] [WARN   ] disk low".len());
}

#[test]
fn options_defaults_and_builders() {
    let o = LoggerOptions::new();
    assert_eq!(o.level, LogLevel::Info);
    assert!(!o.enable_file_logging);
    assert_eq!(o.prefix, None);
    assert_eq!(o.log_directory, "logs");
    assert_eq!(o.retention_days, 7);
    let o = o.with_level(LogLevel::Debug).with_prefix("app").with_log_directory("var").with_retention_days(0);
    assert_eq!(o.level, LogLevel::Debug);
    assert_eq!(o.prefix.as_deref(), Some("app"));
    assert_eq!(o.log_directory, "var");
    assert_eq!(o.retention_days, 0);
}

#[test]
fn plan_with_prefix() {
    let o = LoggerOptions::new().with_prefix("my app").with_file_logging(true).with_retention_days(0);
    let p = plan(Some(o));
    assert_eq!(p.console.prefix.as_deref(), Some("MyApp"));
    let file = p.file.unwrap();
    assert_eq!(file.file_prefix, "my app");
    assert_eq!(file.max_log_files, None);
    assert_eq!(file.layout.prefix.as_deref(), Some("MyApp"));
}

#[test]
fn plan_without_options() {
    let p = plan(None);
    assert_eq!(p.level, LogLevel::Info);
    assert!(p.console.color);
    assert!(p.file.is_none());
}

#[test]
fn level_names() {
    assert_eq!(level_from_lowercase("warning"), LogLevel::Warn);
    assert_eq!(parse_level("WARNING"), LogLevel::Warn);
    assert_eq!(parse_level("Trace"), LogLevel::Trace);
    assert_eq!(parse_level("DEBUG"), LogLevel::Debug);
    assert_eq!(parse_level("error"), LogLevel::Error);
    assert_eq!(parse_level("Off"), LogLevel::Off);
    assert_eq!(parse_level("nonsense"), LogLevel::Info);
}

#[test]
fn tracing_options() {
    let o = TracingOptions::new();
    assert_eq!(o.level, "info");
    assert_eq!(o.log_directory, None);
    let o = o.with_level("debug").with_log_directory("out").with_retention_days(3).with_prefix("x");
    assert_eq!(o.level, "debug");
    assert_eq!(o.log_directory.as_deref(), Some("out"));
    assert_eq!(o.retention_days, Some(3));
    assert_eq!(o.prefix.as_deref(), Some("x"));
}

#[test]
fn options_from_c_fields() {
    let o = TracingOptions::from_c_fields(None, 0, None, None, 0);
    assert_eq!(o.level, "info");
    assert!(!o.enable_file_logging);
    assert_eq!(o.retention_days, None);
    let o = TracingOptions::from_c_fields(Some("warn".to_string()), 5, Some("p".to_string()), Some("d".to_string()), 2);
    assert_eq!(o.level, "warn");
    assert!(o.enable_file_logging);
    assert_eq!(o.prefix.as_deref(), Some("p"));
    assert_eq!(o.log_directory.as_deref(), Some("d"));
    assert_eq!(o.retention_days, Some(2));
}

#[test]
fn tracing_plans() {
    let p = tracing_plan(None);
    assert_eq!(p.level, LogLevel::Info);
    assert_eq!(p.console.prefix, "Puniyu");
    assert!(p.console.color);
    assert!(p.file.is_none());
    let o = TracingOptions::new().with_level("WARNING").with_file_logging(true).with_prefix("my bot");
    let p = tracing_plan(Some(o));
    assert_eq!(p.level, LogLevel::Warn);
    assert_eq!(p.console.prefix, "MyBot");
    let file = p.file.unwrap();
    assert_eq!(file.directory, "logs");
    assert_eq!(file.file_prefix, "my bot");
    assert_eq!(file.max_log_files, 7);
    assert_eq!(file.formatter.prefix, "MyBot");
    assert!(!file.formatter.color);
}

#[test]
fn tracing_lines() {
    let plain = Formatter::new("Puniyu".to_string(), false);
    assert_eq!(
        plain.render_event("10:00:00.000", LogLevel::Info, "INFO", "hi"),
        "[Puniyu] [10:00:00.000] [INFO   ] hi\n"
    );
    let coloured = Formatter::new("Puniyu".to_string(), true);
    assert_eq!(
        coloured.render_event("10:00:00.000", LogLevel::Error, "ERROR", "hi"),
        "[\x1b[35mPuniyu\x1b[39m] [10:00:00.000] [\x1b[31mERROR  \x1b[39m] hi\n"
    );
    let line = plain.format_event(&tracing::Level::DEBUG, "boom");
    assert!(line.starts_with("[Puniyu] ["));
    assert!(line.ends_with("] [DEBUG  ] boom\n"));
}

#[test]
fn message_visitor() {
    let mut v = MessageVisitor::new(true);
    v.record_str("target", "ignored");
    v.record_str("message", "\x1b[32mok\x1b[0m");
    v.record_debug("message", "!");
    assert_eq!(v.text, "ok!");
    let mut raw = MessageVisitor::new(false);
    raw.record_str("message", "\x1b[32mok\x1b[0m");
    assert_eq!(raw.text, "\x1b[32mok\x1b[0m");
}

const ALL_LEVELS: [Level; 24] = [
    Level::Trace, Level::Trace2, Level::Trace3, Level::Trace4,
    Level::Debug, Level::Debug2, Level::Debug3, Level::Debug4,
    Level::Info, Level::Info2, Level::Info3, Level::Info4,
    Level::Warn, Level::Warn2, Level::Warn3, Level::Warn4,
    Level::Error, Level::Error2, Level::Error3, Level::Error4,
    Level::Fatal, Level::Fatal2, Level::Fatal3, Level::Fatal4,
];

#[test]
fn coloured_level_columns_strip_to_plain() {
    for level in ALL_LEVELS {
        let coloured = Layout::new(Some("A".to_string()), true).format_level(level);
        let plain = Layout::new(None, false).format_level(level);
        assert_eq!(strip_message(&coloured), plain);
        assert_eq!(plain.chars().count(), 7);
    }
}

#[test]
fn coloured_lines_strip_to_plain() {
    for prefix in [None, Some("Bot".to_string())] {
        for level in ALL_LEVELS {
            let coloured = Layout::new(prefix.clone(), true).format_level(level);
            let plain = Layout::new(prefix.clone(), false).format_level(level);
            assert_eq!(strip_message(&coloured), plain);
        }
        let coloured = Layout::new(prefix.clone(), true).render_line("12:00:00.000", "INFO", 9, "\x1b[1mhi\x1b[0m");
        let plain = Layout::new(prefix.clone(), false).render_line("12:00:00.000", "INFO", 9, "\x1b[1mhi\x1b[0m");
        assert_eq!(strip_message(&coloured), plain);
    }
}

#[test]
fn clock_text_shape() {
    let shaped = |s: &str| {
        let c: Vec<char> = s.chars().collect();
        c.len() == 12
            && c[2] == ':'
            && c[5] == ':'
            && c[8] == '.'
            && c.iter().enumerate().all(|(i, ch)| i == 2 || i == 5 || i == 8 || ch.is_ascii_digit())
    };
    assert!(shaped(&format_timestamp(SystemTime::now())));
    let now = puniyu_logger::tracing_format::shanghai_clock_now().expect("Asia/Shanghai is known");
    assert!(shaped(&now));
}
