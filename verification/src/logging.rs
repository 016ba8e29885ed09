//! The levels at which the application logs.

use crate::error::{ConfigError, ConfigErrorView, Error};
use crate::text::{join, lowercase, lowercased, same_text};
use std::str::FromStr;
use vstd::prelude::*;

verus! {

/// How much the application logs.
#[derive(Debug, Clone, Copy, PartialEq, Eq, Structural)]
pub enum LogLevel {
    Trace,
    Debug,
    Info,
    Warn,
    Error,
}

/// The level that a lower-case name stands for.
pub open spec fn level_named(name: Seq<char>) -> Option<LogLevel> {
    if name == "trace"@ {
        Some(LogLevel::Trace)
    } else if name == "debug"@ {
        Some(LogLevel::Debug)
    } else if name == "info"@ {
        Some(LogLevel::Info)
    } else if name == "warn"@ {
        Some(LogLevel::Warn)
    } else if name == "error"@ {
        Some(LogLevel::Error)
    } else {
        None
    }
}

/// What parsing a level's name yields: the level that the lower-cased name
/// stands for, or the complaint about the name as it was written.
pub open spec fn parsed_level(name: Seq<char>) -> Result<LogLevel, ConfigErrorView> {
    match level_named(lowercased(name)) {
        Some(level) => Ok(level),
        None => Err(ConfigErrorView::InvalidValue("Invalid log level: "@ + name)),
    }
}

/// Whether `found` is what `expected` describes.
pub open spec fn matches_level(
    found: Result<LogLevel, Error>,
    expected: Result<LogLevel, ConfigErrorView>,
) -> bool {
    match expected {
        Ok(level) => found matches Ok(l) && l == level,
        Err(fault) => found matches Err(Error::Config(error)) && error@ == fault,
    }
}

impl LogLevel {
    /// The level with the given lower-case name.
    pub fn named(name: &str) -> (level: Option<LogLevel>)
        ensures
            level == level_named(name@),
    {
        if same_text(name, "trace") {
            Some(LogLevel::Trace)
        } else if same_text(name, "debug") {
            Some(LogLevel::Debug)
        } else if same_text(name, "info") {
            Some(LogLevel::Info)
        } else if same_text(name, "warn") {
            Some(LogLevel::Warn)
        } else if same_text(name, "error") {
            Some(LogLevel::Error)
        } else {
            None
        }
    }

    /// Reads a level from its name, in whatever case it is written.
    pub fn parse(name: &str) -> (level: Result<LogLevel, Error>)
        ensures
            matches_level(level, parsed_level(name@)),
    {
        let lower = lowercase(name);
        match LogLevel::named(lower.as_str()) {
            Some(level) => Ok(level),
            None => Err(Error::Config(ConfigError::InvalidValue(join("Invalid log level: ", name)))),
        }
    }

    /// The lower-case name of the level.
    pub fn name(self) -> (name: &'static str)
        ensures
            level_named(name@) == Some(self),
    {
        proof {
            reveal_strlit("trace");
            reveal_strlit("debug");
            reveal_strlit("info");
            reveal_strlit("warn");
            reveal_strlit("error");
            assert("trace"@[0] == 't' && "debug"@[0] == 'd' && "info"@[0] == 'i' && "warn"@[0]
                == 'w' && "error"@[0] == 'e');
        }
        match self {
            LogLevel::Trace => "trace",
            LogLevel::Debug => "debug",
            LogLevel::Info => "info",
            LogLevel::Warn => "warn",
            LogLevel::Error => "error",
        }
    }
}

impl FromStr for LogLevel {
    type Err = Error;

    fn from_str(s: &str) -> (level: Result<LogLevel, Error>)
        ensures
            matches_level(level, parsed_level(s@)),
    {
        LogLevel::parse(s)
    }
}

} // verus!
