use logforth::record::Level;
use puniyu_logger::filter::{FilterOutcome, LevelFilter};
use puniyu_logger::level::LogLevel;
use puniyu_logger::options::LoggerOptions;
use puniyu_logger::setup::plan;
use puniyu_logger::{get_level, set_level};

#[test]
fn log_with_options() {
    let options = LoggerOptions::default()
        .with_file_logging(true)
        .with_log_directory("logs")
        .with_retention_days(7);
    let p = plan(Some(options));
    assert_eq!(p.level, LogLevel::Info);
    assert!(p.console.color);
    assert_eq!(p.console.prefix, None);
    let file = p.file.expect("file logging was asked for");
    assert_eq!(file.directory, "logs");
    assert_eq!(file.file_prefix, "logger");
    assert_eq!(file.max_log_files, Some(7));
    assert!(!file.layout.color);
    assert_eq!(file.layout.prefix, None);
}

#[test]
fn explicit_info_level_works() {
    let options = LoggerOptions::default().with_level(LogLevel::Info);
    let p = plan(Some(options));
    assert_eq!(p.level, LogLevel::Info);
    assert!(p.file.is_none());
}

#[test]
fn set_max_level_updates_runtime_level() {
    let filter = LevelFilter::new();

    set_level(LogLevel::Trace);
    assert_eq!(get_level(), LogLevel::Trace);
    assert_eq!(log::max_level(), log::LevelFilter::Trace);
    assert_eq!(filter.enabled(Level::Trace), FilterOutcome::Neutral);

    set_level(LogLevel::Warn);
    assert_eq!(get_level(), LogLevel::Warn);
    assert_eq!(log::max_level(), log::LevelFilter::Warn);
    assert_eq!(filter.enabled(Level::Info), FilterOutcome::Reject);
    assert_eq!(filter.enabled(Level::Warn), FilterOutcome::Neutral);

    set_level(LogLevel::Info);
}

#[test]
fn set_max_level_consistent_with_log_enabled() {
    let filter = LevelFilter::new();
    for (level, filter_level, record_level) in [
        (LogLevel::Off, log::LevelFilter::Off, None),
        (LogLevel::Error, log::LevelFilter::Error, Some(Level::Error)),
        (LogLevel::Warn, log::LevelFilter::Warn, Some(Level::Warn)),
        (LogLevel::Info, log::LevelFilter::Info, Some(Level::Info)),
        (LogLevel::Debug, log::LevelFilter::Debug, Some(Level::Debug)),
        (LogLevel::Trace, log::LevelFilter::Trace, Some(Level::Trace)),
    ] {
        set_level(level);
        assert_eq!(log::max_level(), filter_level, "max_level should match for {level:?}");
        assert_eq!(get_level(), level);

        if let Some(record_level) = record_level {
            assert_eq!(
                filter.enabled(record_level),
                FilterOutcome::Neutral,
                "records of {record_level:?} should pass when the limit is {level:?}"
            );
        } else {
            assert_eq!(filter.enabled(Level::Fatal), FilterOutcome::Reject);
        }
    }

    set_level(LogLevel::Info);
}
