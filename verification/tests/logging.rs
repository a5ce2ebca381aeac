use focus_forge::logging::{
    log_config, Level, LevelFilter, LogConfig, LogRecord, RotationStrategy, LOG_FILE_NAME,
    MAX_LOG_FILE_SIZE,
};

fn outside_level(level: Level) -> log::Level {
    match level {
        Level::Error => log::Level::Error,
        Level::Warn => log::Level::Warn,
        Level::Info => log::Level::Info,
        Level::Debug => log::Level::Debug,
        Level::Trace => log::Level::Trace,
    }
}

fn outside_filter(filter: LevelFilter) -> log::LevelFilter {
    match filter {
        LevelFilter::Off => log::LevelFilter::Off,
        LevelFilter::Error => log::LevelFilter::Error,
        LevelFilter::Warn => log::LevelFilter::Warn,
        LevelFilter::Info => log::LevelFilter::Info,
        LevelFilter::Debug => log::LevelFilter::Debug,
        LevelFilter::Trace => log::LevelFilter::Trace,
    }
}

const LEVELS: [Level; 5] = [Level::Error, Level::Warn, Level::Info, Level::Debug, Level::Trace];

const FILTERS: [LevelFilter; 6] = [
    LevelFilter::Off,
    LevelFilter::Error,
    LevelFilter::Warn,
    LevelFilter::Info,
    LevelFilter::Debug,
    LevelFilter::Trace,
];

#[test]
fn log_config_values() {
    assert_eq!(
        log_config(),
        LogConfig {
            file_name: String::from("focus-forge.log"),
            max_file_size: 50_000,
            rotation: RotationStrategy::KeepAll,
            level: LevelFilter::Info,
        }
    );
}

#[test]
fn log_config_uses_the_constants() {
    let config = log_config();
    assert_eq!(config.file_name, LOG_FILE_NAME);
    assert_eq!(config.max_file_size, MAX_LOG_FILE_SIZE);
    assert_eq!(LOG_FILE_NAME, "focus-forge.log");
    assert_eq!(MAX_LOG_FILE_SIZE, 50_000);
}

#[test]
fn log_config_drops_debug_and_trace_only() {
    let level = log_config().level;
    assert!(level.enabled(Level::Error));
    assert!(level.enabled(Level::Warn));
    assert!(level.enabled(Level::Info));
    assert!(!level.enabled(Level::Debug));
    assert!(!level.enabled(Level::Trace));
}

#[test]
fn log_config_is_the_same_each_time() {
    assert_eq!(log_config(), log_config());
}

#[test]
fn severities_count_up_from_error() {
    assert_eq!(Level::Error.severity(), 1);
    assert_eq!(Level::Warn.severity(), 2);
    assert_eq!(Level::Info.severity(), 3);
    assert_eq!(Level::Debug.severity(), 4);
    assert_eq!(Level::Trace.severity(), 5);
}

#[test]
fn limits_count_up_from_off() {
    assert_eq!(LevelFilter::Off.limit(), 0);
    assert_eq!(LevelFilter::Error.limit(), 1);
    assert_eq!(LevelFilter::Warn.limit(), 2);
    assert_eq!(LevelFilter::Info.limit(), 3);
    assert_eq!(LevelFilter::Debug.limit(), 4);
    assert_eq!(LevelFilter::Trace.limit(), 5);
}

#[test]
fn off_lets_nothing_through() {
    for level in LEVELS {
        assert!(!LevelFilter::Off.enabled(level));
    }
}

#[test]
fn trace_lets_everything_through() {
    for level in LEVELS {
        assert!(LevelFilter::Trace.enabled(level));
    }
}

#[test]
fn enabled_orders_as_the_log_crate_does() {
    for filter in FILTERS {
        for level in LEVELS {
            assert_eq!(
                filter.enabled(level),
                outside_level(level) <= outside_filter(filter),
                "{:?} under {:?}",
                level,
                filter
            );
        }
    }
}

#[test]
fn ranks_are_the_log_crate_s() {
    for level in LEVELS {
        assert_eq!(usize::from(level.severity()), outside_level(level) as usize);
    }
    for filter in FILTERS {
        assert_eq!(usize::from(filter.limit()), outside_filter(filter) as usize);
    }
}

#[test]
fn info_record_is_informational() {
    let record = LogRecord::info(String::from("ready"));
    assert_eq!(record, LogRecord { level: Level::Info, message: String::from("ready") });
}
