//! The log sink: severities, the records the shell writes, and the settings of
//! the rotating file it writes them to.

use vstd::prelude::*;
use vstd::string::*;

verus! {

/// Name of the log file inside the platform's log directory.
pub const LOG_FILE_NAME: &'static str = "focus-forge.log";

/// Size in bytes past which the log file is rotated.
pub const MAX_LOG_FILE_SIZE: u128 = 50_000;

/// Severity of one record, most severe first.
#[derive(Clone, Copy, Debug, PartialEq, Eq, Structural)]
pub enum Level {
    Error,
    Warn,
    Info,
    Debug,
    Trace,
}

/// The least severe level a sink still writes; `Off` writes nothing.
#[derive(Clone, Copy, Debug, PartialEq, Eq, Structural)]
pub enum LevelFilter {
    Off,
    Error,
    Warn,
    Info,
    Debug,
    Trace,
}

/// What becomes of a log file that has outgrown its size limit.
#[derive(Clone, Copy, Debug, PartialEq, Eq, Structural)]
pub enum RotationStrategy {
    /// Every outgrown file is kept, renamed to carry its date.
    KeepAll,
    /// Only the current file is kept.
    KeepOne,
    /// The given number of most recent files is kept.
    KeepSome(usize),
}

impl Level {
    /// Position in the order of severities: 1 for `Error` up to 5 for `Trace`.
    pub open spec fn rank(self) -> nat {
        match self {
            Level::Error => 1,
            Level::Warn => 2,
            Level::Info => 3,
            Level::Debug => 4,
            Level::Trace => 5,
        }
    }

    /// The rank as a machine integer.
    pub fn severity(self) -> (rank: u8)
        ensures
            rank == self.rank(),
    {
        match self {
            Level::Error => 1,
            Level::Warn => 2,
            Level::Info => 3,
            Level::Debug => 4,
            Level::Trace => 5,
        }
    }
}

impl LevelFilter {
    /// Rank of the least severe level let through; 0 for `Off`.
    pub open spec fn ceiling(self) -> nat {
        match self {
            LevelFilter::Off => 0,
            LevelFilter::Error => 1,
            LevelFilter::Warn => 2,
            LevelFilter::Info => 3,
            LevelFilter::Debug => 4,
            LevelFilter::Trace => 5,
        }
    }

    /// A record of severity `level` passes this filter.
    pub open spec fn admits(self, level: Level) -> bool {
        level.rank() <= self.ceiling()
    }

    /// The ceiling as a machine integer.
    pub fn limit(self) -> (ceiling: u8)
        ensures
            ceiling == self.ceiling(),
    {
        match self {
            LevelFilter::Off => 0,
            LevelFilter::Error => 1,
            LevelFilter::Warn => 2,
            LevelFilter::Info => 3,
            LevelFilter::Debug => 4,
            LevelFilter::Trace => 5,
        }
    }

    /// Whether a record of severity `level` passes this filter.
    pub fn enabled(self, level: Level) -> (passes: bool)
        ensures
            passes == self.admits(level),
    {
        level.severity() <= self.limit()
    }
}

/// One line for the log sink.
#[derive(Clone, Debug, PartialEq, Eq)]
pub struct LogRecord {
    pub level: Level,
    pub message: String,
}

/// A record as contracts see it.
pub struct LogRecordView {
    pub level: Level,
    pub message: Seq<char>,
}

impl View for LogRecord {
    type V = LogRecordView;

    open spec fn view(&self) -> LogRecordView {
        LogRecordView { level: self.level, message: self.message@ }
    }
}

impl DeepView for LogRecord {
    type V = LogRecordView;

    open spec fn deep_view(&self) -> LogRecordView {
        self@
    }
}

impl LogRecord {
    /// A record of informational severity.
    pub fn info(message: String) -> (record: LogRecord)
        ensures
            record@ == (LogRecordView { level: Level::Info, message: message@ }),
    {
        LogRecord { level: Level::Info, message }
    }
}

/// Settings of the file sink: a file in the platform's log directory, the size
/// past which it is rotated, what happens to outgrown files, and which records
/// are written at all.
#[derive(Clone, Debug, PartialEq, Eq)]
pub struct LogConfig {
    pub file_name: String,
    pub max_file_size: u128,
    pub rotation: RotationStrategy,
    pub level: LevelFilter,
}

/// The sink settings as contracts see them.
pub struct LogConfigView {
    pub file_name: Seq<char>,
    pub max_file_size: nat,
    pub rotation: RotationStrategy,
    pub level: LevelFilter,
}

impl View for LogConfig {
    type V = LogConfigView;

    open spec fn view(&self) -> LogConfigView {
        LogConfigView {
            file_name: self.file_name@,
            max_file_size: self.max_file_size as nat,
            rotation: self.rotation,
            level: self.level,
        }
    }
}

/// The settings the shell runs with: `focus-forge.log`, rotated past 50,000
/// bytes, every outgrown file kept, records below `Info` dropped.
pub open spec fn shell_log_config() -> LogConfigView {
    LogConfigView {
        file_name: LOG_FILE_NAME@,
        max_file_size: 50_000,
        rotation: RotationStrategy::KeepAll,
        level: LevelFilter::Info,
    }
}

/// Builds the sink settings of the shell.
pub fn log_config() -> (config: LogConfig)
    ensures
        config@ == shell_log_config(),
        forall|level: Level|
            #[trigger] config.level.admits(level) <==> level != Level::Debug && level
                != Level::Trace,
{
    LogConfig {
        file_name: String::from_str(LOG_FILE_NAME),
        max_file_size: MAX_LOG_FILE_SIZE,
        rotation: RotationStrategy::KeepAll,
        level: LevelFilter::Info,
    }
}

} // verus!
