//! Command-line surface data: the log verbosity levels and the parsed
//! arguments that the rest of the library is driven by.

use vstd::prelude::*;

verus! {

/// Log verbosity as selected on the command line.
#[derive(Clone, Copy, Debug, PartialEq, Eq, Structural)]
pub enum LogLevel {
    Off,
    Error,
    Warn,
    Info,
    Debug,
    Trace,
}

/// The maximum level of log records that should be emitted. The logging
/// backend's filter is constructed from this value at startup.
#[derive(Clone, Copy, Debug, PartialEq, Eq, Structural)]
pub enum LevelFilter {
    Off,
    Error,
    Warn,
    Info,
    Debug,
    Trace,
}

impl LogLevel {
    /// The filter that admits exactly the records this verbosity asks for.
    pub open spec fn spec_level_filter(self) -> LevelFilter {
        match self {
            LogLevel::Off => LevelFilter::Off,
            LogLevel::Error => LevelFilter::Error,
            LogLevel::Warn => LevelFilter::Warn,
            LogLevel::Info => LevelFilter::Info,
            LogLevel::Debug => LevelFilter::Debug,
            LogLevel::Trace => LevelFilter::Trace,
        }
    }

    pub fn to_level_filter(&self) -> (f: LevelFilter)
        ensures
            f == self.spec_level_filter(),
    {
        match self {
            LogLevel::Off => LevelFilter::Off,
            LogLevel::Error => LevelFilter::Error,
            LogLevel::Warn => LevelFilter::Warn,
            LogLevel::Info => LevelFilter::Info,
            LogLevel::Debug => LevelFilter::Debug,
            LogLevel::Trace => LevelFilter::Trace,
        }
    }
}

/// The parsed command-line arguments.
#[derive(Clone, Debug)]
pub struct Args {
    pub log_level: LogLevel,
    pub dry_run: bool,
    pub once: bool,
    pub config: String,
}

impl Default for Args {
    /// The defaults the command line starts from: informational logging, real
    /// (non-dry-run) operation, continuous watching, and a configuration file
    /// looked up in the working directory.
    fn default() -> (a: Args)
        ensures
            a.log_level == LogLevel::Info,
            !a.dry_run,
            !a.once,
            a.config@ == "./config.yaml"@,
    {
        Args {
            log_level: LogLevel::Info,
            dry_run: false,
            once: false,
            config: "./config.yaml".to_owned(),
        }
    }
}

} // verus!
