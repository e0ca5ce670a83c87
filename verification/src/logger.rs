use vstd::prelude::*;
use vstd::string::*;
use crate::error::Error;
use crate::level::{Level, parse_level, parse_level_spec};

verus! {

/// Buffered writes are flushed once this many bytes have accumulated.
pub const FLUSH_BUFFER_CAPACITY: usize = 64000;

/// Buffered writes are flushed at least this often, in seconds.
pub const FLUSH_INTERVAL_SECS: u64 = 5;

/// The active file rolls over once it exceeds this many bytes.
pub const ROTATE_SIZE_LIMIT_BYTES: u64 = 10000000;

/// The active file rolls over once it is this many days old.
pub const ROTATE_AGE_DAYS: u64 = 1;

/// At most this many rotated files are retained; older ones are deleted.
pub const KEEP_LOG_FILES: usize = 30;

/// Whether the process runs in development or in production. The logger's
/// directory and its console duplication depend on this deployment choice.
#[derive(Clone, Copy, Debug, PartialEq, Eq, Structural)]
pub enum Mode {
    Development,
    Production,
}

/// Which log lines are echoed to standard output besides the file.
#[derive(Clone, Copy, Debug, PartialEq, Eq, Structural)]
pub enum StdoutDuplicate {
    All,
    ErrorOnly,
}

/// Everything the logging backend is configured with, as plain data.
pub struct LoggerConfig {
    /// Directory the log files are written to.
    pub directory: String,
    /// Base name of the active log file.
    pub basename: String,
    /// Minimum severity that is logged at all.
    pub level: Level,
    /// Which lines are echoed to standard output.
    pub duplicate: StdoutDuplicate,
    /// Flush once the write buffer holds this many bytes.
    pub buffer_capacity: usize,
    /// Flush at least every this many seconds.
    pub flush_interval_secs: u64,
    /// Roll over once the active file exceeds this many bytes.
    pub rotate_size_limit: u64,
    /// Roll over once the active file is this many days old.
    pub rotate_age_days: u64,
    /// Retain at most this many rotated files.
    pub keep_log_files: usize,
    /// Append to the active file instead of truncating it.
    pub append: bool,
    /// Leave the timestamp out of the active file's name.
    pub suppress_file_timestamp: bool,
    /// Name rotated files by the timestamp of their rollover.
    pub timestamp_rotation_naming: bool,
}

/// Where the log files live: `log/<name>` during development,
/// `/var/log/<name>` in production.
pub open spec fn log_directory_spec(mode: Mode, name: Seq<char>) -> Seq<char> {
    match mode {
        Mode::Development => "log/"@ + name,
        Mode::Production => "/var/log/"@ + name,
    }
}

/// Builds the path of the log directory for the given deployment mode.
pub fn log_directory(mode: Mode, name: &str) -> (r: String)
    ensures
        r@ == log_directory_spec(mode, name@),
{
    let mut s = match mode {
        Mode::Development => String::from_str("log/"),
        Mode::Production => String::from_str("/var/log/"),
    };
    s.append(name);
    s
}

/// The fixed policy every configuration carries: buffered writes flushed on
/// a five-second timer or at 64000 bytes, rollover after one day or
/// 10,000,000 bytes to a timestamp-named file, at most 30 retained files,
/// appending to the active file, whose own name carries no timestamp.
pub open spec fn fixed_policy(c: LoggerConfig) -> bool {
    &&& c.buffer_capacity == FLUSH_BUFFER_CAPACITY
    &&& c.flush_interval_secs == FLUSH_INTERVAL_SECS
    &&& c.rotate_size_limit == ROTATE_SIZE_LIMIT_BYTES
    &&& c.rotate_age_days == ROTATE_AGE_DAYS
    &&& c.keep_log_files == KEEP_LOG_FILES
    &&& c.append
    &&& c.suppress_file_timestamp
    &&& c.timestamp_rotation_naming
}

/// Which lines are echoed to standard output in the given mode: all of
/// them during development, only errors in production.
pub open spec fn duplicate_for_mode(mode: Mode) -> StdoutDuplicate {
    match mode {
        Mode::Development => StdoutDuplicate::All,
        Mode::Production => StdoutDuplicate::ErrorOnly,
    }
}

/// Computes the full logger configuration for the logical log `name` and
/// the severity string `level`. Succeeds exactly on the recognized
/// severity strings; every other string yields a `LoggerInit` error and no
/// configuration, so nothing is ever started for it.
pub fn init_flexi_logger(name: String, level: String, mode: Mode) -> (r: Result<
    LoggerConfig,
    Error,
>)
    ensures
        r is Ok <==> parse_level_spec(level@) is Some,
        r is Err ==> r->Err_0 == Error::LoggerInit,
        r is Ok ==> {
            let c = r->Ok_0;
            &&& Some(c.level) == parse_level_spec(level@)
            &&& c.directory@ == log_directory_spec(mode, name@)
            &&& c.basename@ == name@
            &&& c.duplicate == duplicate_for_mode(mode)
            &&& fixed_policy(c)
        },
{
    let lvl = match parse_level(level.as_str()) {
        Some(l) => l,
        None => {
            return Err(Error::LoggerInit);
        },
    };
    let directory = log_directory(mode, name.as_str());
    let duplicate = match mode {
        Mode::Development => StdoutDuplicate::All,
        Mode::Production => StdoutDuplicate::ErrorOnly,
    };
    Ok(
        LoggerConfig {
            directory,
            basename: name,
            level: lvl,
            duplicate,
            buffer_capacity: FLUSH_BUFFER_CAPACITY,
            flush_interval_secs: FLUSH_INTERVAL_SECS,
            rotate_size_limit: ROTATE_SIZE_LIMIT_BYTES,
            rotate_age_days: ROTATE_AGE_DAYS,
            keep_log_files: KEEP_LOG_FILES,
            append: true,
            suppress_file_timestamp: true,
            timestamp_rotation_naming: true,
        },
    )
}

} // verus!
