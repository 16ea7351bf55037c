use vstd::prelude::*;

use crate::level::{level_from_name, level_named, passes, Level};
use crate::{format_log, log_line};

verus! {

/// The console stream a line goes to.
#[derive(Debug, Clone, Copy, PartialEq, Eq, Structural)]
pub enum ConsoleStream {
    Stdout,
    Stderr,
}

/// A rendered line and the stream it is printed on.
#[derive(Debug)]
pub struct ConsoleLine {
    pub text: String,
    pub stream: ConsoleStream,
}

/// The synchronous console sink.
pub struct ConsoleLogger {
    pub max_log_level: Level,
}

pub struct ConsoleLoggerConfig {
    pub max_log_level: Level,
}

/// The level that a `RUST_LOG` value selects; unset means `Info`.
pub open spec fn configured_level(rust_log: Option<&str>) -> Level {
    match rust_log {
        Some(s) => level_named(s@),
        None => Level::Info,
    }
}

impl ConsoleLoggerConfig {
    pub fn new(max_log_level: Level) -> (r: Self)
        ensures
            r.max_log_level == max_log_level,
    {
        Self { max_log_level }
    }

    /// The configuration a `RUST_LOG` value gives.
    pub fn from_rust_log(rust_log: Option<&str>) -> (r: Self)
        ensures
            r.max_log_level == configured_level(rust_log),
    {
        let level = match rust_log {
            Some(s) => level_from_name(s),
            None => Level::Info,
        };
        Self::new(level)
    }
}

impl ConsoleLogger {
    pub fn new(config: ConsoleLoggerConfig) -> (r: Self)
        ensures
            r.max_log_level == config.max_log_level,
    {
        ConsoleLogger { max_log_level: config.max_log_level }
    }

    pub fn enabled(&self, level: Level) -> (r: bool)
        ensures
            r == passes(level, self.max_log_level),
    {
        level.passes(self.max_log_level)
    }

    /// Renders a message: errors go to standard error, the rest to standard output.
    pub fn log(&self, level: Level, args: &str) -> (r: ConsoleLine)
        ensures
            r.text@ == log_line(args@),
            r.stream == (if level == Level::Error {
                ConsoleStream::Stderr
            } else {
                ConsoleStream::Stdout
            }),
    {
        let text = format_log(args);
        let stream = if level == Level::Error {
            ConsoleStream::Stderr
        } else {
            ConsoleStream::Stdout
        };
        ConsoleLine { text, stream }
    }
}

} // verus!
