use vstd::prelude::*;
use vstd::string::StringExecFns;

verus! {

/// A logger that writes lines.
#[derive(Debug, Clone, Copy, PartialEq, Eq, Structural)]
pub struct Logger;

/// How much is logged.
#[derive(Debug, Clone, Copy, PartialEq, Eq, Structural)]
pub enum LogLevelFilter {
    Off,
    Error,
    Warn,
    Info,
    Debug,
    Trace,
}

impl LogLevelFilter {
    /// The level as it is written.
    pub open spec fn name(self) -> Seq<char> {
        match self {
            LogLevelFilter::Off => "OFF"@,
            LogLevelFilter::Error => "ERROR"@,
            LogLevelFilter::Warn => "WARN"@,
            LogLevelFilter::Info => "INFO"@,
            LogLevelFilter::Debug => "DEBUG"@,
            LogLevelFilter::Trace => "TRACE"@,
        }
    }
}

impl Logger {
    /// The logger writes every record that reaches it.
    pub fn enabled(&self) -> (res: bool)
        ensures
            res,
    {
        true
    }

    /// The line that is written for a record: its level, a colon, and
    /// its message.
    pub fn line(&self, level: LogLevelFilter, message: &str) -> (res: String)
        ensures
            res@ == level.name() + ": "@ + message@,
    {
        let name = match level {
            LogLevelFilter::Off => "OFF",
            LogLevelFilter::Error => "ERROR",
            LogLevelFilter::Warn => "WARN",
            LogLevelFilter::Info => "INFO",
            LogLevelFilter::Debug => "DEBUG",
            LogLevelFilter::Trace => "TRACE",
        };
        name.to_owned().concat(": ").concat(message)
    }
}

} // verus!
