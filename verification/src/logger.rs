//! A logger with three levels: which messages it lets through, and how
//! each is written.

use vstd::prelude::*;
use vstd::string::StringExecFns;

verus! {

/// How much a logger lets through.
#[derive(Clone, Copy, Debug, PartialEq, Eq, Structural)]
#[allow(non_camel_case_types)]
pub enum LogLevel {
    /// Nothing at all.
    NONE,
    /// Errors and plain messages.
    NORMAL,
    /// Errors, plain messages and notes.
    VERBOSE,
}

/// A logger that lets through what its level allows.
#[derive(Clone, Copy, Debug, PartialEq, Eq, Structural)]
pub struct Logger {
    level: LogLevel,
}

/// The line of an error: `Error ` and the message.
pub open spec fn error_text(message: Seq<char>) -> Seq<char> {
    "Error "@ + message
}

/// The line of a note: `INFO ` and the message.
pub open spec fn info_text(message: Seq<char>) -> Seq<char> {
    "INFO "@ + message
}

impl Logger {
    /// The level of this logger.
    pub closed spec fn level(&self) -> LogLevel {
        self.level
    }

    /// A logger at `level`.
    pub fn new(level: LogLevel) -> (r: Logger)
        ensures
            r.level() == level,
    {
        Logger { level }
    }

    /// The line to write to the error stream for an error, unless the
    /// logger is silent.
    pub fn error(&self, message: String) -> (r: Option<String>)
        ensures
            match r {
                Some(line) => !(self.level() is NONE) && line@ == error_text(message@),
                None => self.level() is NONE,
            },
    {
        match self.level {
            LogLevel::NONE => None,
            LogLevel::NORMAL | LogLevel::VERBOSE => {
                let line = String::from_str("Error ");
                Some(line.concat(message.as_str()))
            },
        }
    }

    /// The line to write to the output stream for a plain message,
    /// unless the logger is silent.
    pub fn log(&self, message: String) -> (r: Option<String>)
        ensures
            match r {
                Some(line) => !(self.level() is NONE) && line@ == message@,
                None => self.level() is NONE,
            },
    {
        match self.level {
            LogLevel::NONE => None,
            LogLevel::NORMAL | LogLevel::VERBOSE => Some(message),
        }
    }

    /// The line to write to the output stream for a note, which only a
    /// verbose logger lets through.
    pub fn info(&self, message: String) -> (r: Option<String>)
        ensures
            match r {
                Some(line) => self.level() is VERBOSE && line@ == info_text(message@),
                None => !(self.level() is VERBOSE),
            },
    {
        match self.level {
            LogLevel::NONE | LogLevel::NORMAL => None,
            LogLevel::VERBOSE => {
                let line = String::from_str("INFO ");
                Some(line.concat(message.as_str()))
            },
        }
    }
}

} // verus!
