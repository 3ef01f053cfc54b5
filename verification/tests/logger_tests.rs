use notify_relay::logger::{clock, format_line, Level, LevelFilter, SimpleLogger};

#[test]
fn a_logger_keeps_its_level() {
    assert_eq!(SimpleLogger::new(LevelFilter::Info).level(), LevelFilter::Info);
    assert_eq!(SimpleLogger::new(LevelFilter::Off).level(), LevelFilter::Off);
}

#[test]
fn records_up_to_the_level_are_let_through() {
    let logger = SimpleLogger::new(LevelFilter::Info);
    assert!(logger.enabled(Level::Error));
    assert!(logger.enabled(Level::Warn));
    assert!(logger.enabled(Level::Info));
    assert!(!logger.enabled(Level::Debug));
    assert!(!logger.enabled(Level::Trace));
}

#[test]
fn off_lets_nothing_through_and_trace_everything() {
    let off = SimpleLogger::new(LevelFilter::Off);
    let trace = SimpleLogger::new(LevelFilter::Trace);
    for level in [Level::Error, Level::Warn, Level::Info, Level::Debug, Level::Trace] {
        assert!(!off.enabled(level));
        assert!(trace.enabled(level));
    }
}

#[test]
fn the_clock_is_the_time_of_day() {
    assert_eq!(clock(0), (0, 0, 0));
    assert_eq!(clock(3661), (1, 1, 1));
    assert_eq!(clock(86399), (23, 59, 59));
    assert_eq!(clock(86400), (0, 0, 0));
    assert_eq!(clock(1_700_000_000), (22, 13, 20));
}

#[test]
fn a_line_holds_target_time_and_message() {
    let logger = SimpleLogger::new(LevelFilter::Info);
    assert_eq!(
        logger.log(Level::Info, "host_notify_waiter", 3661, "Container is ready"),
        Some("[HOST_NOTIFY_WAITER 01:01:01] Container is ready".to_string())
    );
    assert_eq!(
        logger.log(Level::Error, "x", 86399, ""),
        Some("[X 23:59:59] ".to_string())
    );
}

#[test]
fn a_line_is_label_clock_and_message() {
    assert_eq!(format_line("HOST", 0, "up"), "[HOST 00:00:00] up");
    assert_eq!(format_line("host", 45296, "a b"), "[host 12:34:56] a b");
    assert_eq!(format_line("", 86400 + 9, ""), "[ 00:00:09] ");
}

#[test]
fn the_target_is_put_in_upper_case() {
    let logger = SimpleLogger::new(LevelFilter::Trace);
    assert_eq!(
        logger.log(Level::Debug, "stra\u{df}e", 60, "x"),
        Some("[STRASSE 00:01:00] x".to_string())
    );
}

#[test]
fn a_record_above_the_level_gives_no_line() {
    let logger = SimpleLogger::new(LevelFilter::Error);
    assert_eq!(logger.log(Level::Info, "host", 0, "hidden"), None);
    assert_eq!(logger.log(Level::Error, "host", 0, "shown"), Some("[HOST 00:00:00] shown".to_string()));
}

#[test]
fn init_sets_the_threshold_of_the_macros() {
    let logger = SimpleLogger::init(LevelFilter::Debug);
    assert_eq!(logger.level(), LevelFilter::Debug);
    assert_eq!(log::max_level(), log::LevelFilter::Debug);
    let logger = SimpleLogger::init(LevelFilter::Error);
    assert_eq!(logger.level(), LevelFilter::Error);
    assert_eq!(log::max_level(), log::LevelFilter::Error);
}

#[test]
fn levels_are_ordered_as_the_log_crate_orders_them() {
    let levels = [
        (Level::Error, log::Level::Error),
        (Level::Warn, log::Level::Warn),
        (Level::Info, log::Level::Info),
        (Level::Debug, log::Level::Debug),
        (Level::Trace, log::Level::Trace),
    ];
    let filters = [
        (LevelFilter::Off, log::LevelFilter::Off),
        (LevelFilter::Error, log::LevelFilter::Error),
        (LevelFilter::Warn, log::LevelFilter::Warn),
        (LevelFilter::Info, log::LevelFilter::Info),
        (LevelFilter::Debug, log::LevelFilter::Debug),
        (LevelFilter::Trace, log::LevelFilter::Trace),
    ];
    for (filter, theirs) in filters {
        let logger = SimpleLogger::new(filter);
        for (level, their_level) in levels {
            assert_eq!(logger.enabled(level), their_level <= theirs);
        }
    }
}
