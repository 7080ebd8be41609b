use deno_loader::logging::ConsoleLogReporter;
use deno_loader::logging::LevelFilter;
use deno_loader::logging::LogLevel;
use deno_loader::logging::Logger;
use deno_loader::logging::Logging;

#[test]
fn debug_records_need_debugging() {
    let quiet = Logger { debug: false };
    let loud = Logger { debug: true };
    for level in [LogLevel::Error, LogLevel::Warn, LogLevel::Info] {
        assert!(quiet.enabled(level));
        assert!(loud.enabled(level));
    }
    assert!(!quiet.enabled(LogLevel::Debug));
    assert!(loud.enabled(LogLevel::Debug));
    assert!(!quiet.enabled(LogLevel::Trace));
    assert!(!loud.enabled(LogLevel::Trace));
}

#[test]
fn lines_name_the_level() {
    let logger = Logger { debug: false };
    assert_eq!(logger.log(LogLevel::Warn, "careful"), Some("WARN RS - careful".to_string()));
    assert_eq!(logger.log(LogLevel::Error, ""), Some("ERROR RS - ".to_string()));
    assert_eq!(logger.log(LogLevel::Info, "x"), Some("INFO RS - x".to_string()));
    assert_eq!(logger.log(LogLevel::Debug, "x"), None);
    let logger = Logger { debug: true };
    assert_eq!(logger.log(LogLevel::Debug, "x"), Some("DEBUG RS - x".to_string()));
    assert_eq!(logger.log(LogLevel::Trace, "x"), None);
    assert_eq!(LogLevel::Trace.as_str(), "TRACE");
}

#[test]
fn level_names_are_those_of_the_log_crate() {
    assert_eq!(LogLevel::Error.as_str(), log::Level::Error.as_str());
    assert_eq!(LogLevel::Warn.as_str(), log::Level::Warn.as_str());
    assert_eq!(LogLevel::Info.as_str(), log::Level::Info.as_str());
    assert_eq!(LogLevel::Debug.as_str(), log::Level::Debug.as_str());
    assert_eq!(LogLevel::Trace.as_str(), log::Level::Trace.as_str());
}

#[test]
fn first_offer_makes_the_logger() {
    for debug in [true, false] {
        let before = Logging::untouched();
        assert_eq!(before.logger(debug).debug, debug);
        let after = before.offer(debug, true);
        assert_eq!(after.logger.map(|logger| logger.debug), Some(debug));
        let filter = if debug { LevelFilter::Debug } else { LevelFilter::Info };
        assert_eq!(after.filter, Some(filter));
    }
}

#[test]
fn first_logger_stays() {
    let once = Logging::untouched().offer(false, true);
    let twice = once.offer(true, false).offer(false, false);
    assert_eq!(once.logger(true).debug, false);
    assert_eq!(twice.logger.map(|logger| logger.debug), Some(false));
    assert_eq!(twice.filter, Some(LevelFilter::Info));
}

#[test]
fn refused_logger_sets_no_filter() {
    let after = Logging::untouched().offer(true, false);
    assert_eq!(after.logger.map(|logger| logger.debug), Some(true));
    assert_eq!(after.filter, None);
}

#[test]
fn reporter_lines() {
    let reporter = ConsoleLogReporter;
    assert_eq!(reporter.on_blocking("waiting for lock"), "Blocking waiting for lock");
    assert_eq!(reporter.on_initializing("chalk@5"), "Initialize chalk@5");
}
