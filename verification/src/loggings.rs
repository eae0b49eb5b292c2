//! Logging policy and line format of the monitor.
//!
//! The library decides which records are logged and how a line looks;
//! writing the line to a file or the console is the surrounding program's
//! affair.

use vstd::prelude::*;
use vstd::string::StringExecFns;

verus! {

/// A record's severity, most severe first.
#[derive(Clone, Copy, Debug, PartialEq, Eq, Structural)]
pub enum LogLevel {
    Error,
    Warn,
    Info,
    Debug,
    Trace,
}

impl LogLevel {
    /// Numeric severity rank: lower is more severe.
    pub open spec fn spec_rank(self) -> int {
        match self {
            LogLevel::Error => 1,
            LogLevel::Warn => 2,
            LogLevel::Info => 3,
            LogLevel::Debug => 4,
            LogLevel::Trace => 5,
        }
    }

    /// Exec mirror of [`LogLevel::spec_rank`].
    pub fn rank(&self) -> (r: u8)
        ensures
            r == self.spec_rank(),
    {
        match self {
            LogLevel::Error => 1,
            LogLevel::Warn => 2,
            LogLevel::Info => 3,
            LogLevel::Debug => 4,
            LogLevel::Trace => 5,
        }
    }

    /// The level's name as it appears in a log line.
    pub open spec fn spec_name(self) -> Seq<char> {
        match self {
            LogLevel::Error => "ERROR"@,
            LogLevel::Warn => "WARN"@,
            LogLevel::Info => "INFO"@,
            LogLevel::Debug => "DEBUG"@,
            LogLevel::Trace => "TRACE"@,
        }
    }

    /// Exec mirror of [`LogLevel::spec_name`].
    pub fn name(&self) -> (r: &'static str)
        ensures
            r@ == self.spec_name(),
    {
        match self {
            LogLevel::Error => "ERROR",
            LogLevel::Warn => "WARN",
            LogLevel::Info => "INFO",
            LogLevel::Debug => "DEBUG",
            LogLevel::Trace => "TRACE",
        }
    }
}

/// Which records pass: everything at `max_level` or more severe.
pub struct LogPolicy {
    /// The least severe level still logged.
    pub max_level: LogLevel,
}

impl LogPolicy {
    /// Whether a record at `level` is logged under this policy.
    pub open spec fn spec_enabled(self, level: LogLevel) -> bool {
        level.spec_rank() <= self.max_level.spec_rank()
    }

    /// Exec mirror of [`LogPolicy::spec_enabled`].
    pub fn enabled(&self, level: LogLevel) -> (r: bool)
        ensures
            r == self.spec_enabled(level),
    {
        level.rank() <= self.max_level.rank()
    }
}

/// The policy the monitor installs at startup: records up to `Info` are
/// written, `Debug` and `Trace` are dropped.  Registering the sink that
/// honors the policy is the caller's affair.
pub fn init_logs() -> (p: LogPolicy)
    ensures
        p == (LogPolicy { max_level: LogLevel::Info }),
        p.spec_enabled(LogLevel::Error),
        p.spec_enabled(LogLevel::Warn),
        p.spec_enabled(LogLevel::Info),
        !p.spec_enabled(LogLevel::Debug),
        !p.spec_enabled(LogLevel::Trace),
{
    LogPolicy { max_level: LogLevel::Info }
}

/// One log line: a leading newline, the timestamp, the level's name and
/// the message, exactly in the layout the monitor's log files use.
pub fn format_log_line(timestamp: &str, level: LogLevel, message: &str) -> (r: String)
    ensures
        r@ == "\n"@ + timestamp@ + " : "@ + level.spec_name() + " - "@ + message@,
{
    let line = "\n".to_owned().concat(timestamp).concat(" : ").concat(level.name()).concat(
        " - ",
    ).concat(message);
    proof {
        assert(line@ =~= "\n"@ + timestamp@ + " : "@ + level.spec_name() + " - "@ + message@);
    }
    line
}

} // verus!
