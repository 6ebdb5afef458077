use crate::error::Error;
use vstd::prelude::*;

verus! {

/// How much the codec library reports on its own log.
#[derive(Clone, Copy, Debug, PartialEq, Eq, Structural)]
pub enum Level {
    Quiet,
    Panic,
    Fatal,
    Error,
    Warning,
    Info,
    Verbose,
    Debug,
    Trace,
}

impl Level {
    /// The codec library's number for each level.
    pub open spec fn code_spec(self) -> int {
        match self {
            Level::Quiet => -8,
            Level::Panic => 0,
            Level::Fatal => 8,
            Level::Error => 16,
            Level::Warning => 24,
            Level::Info => 32,
            Level::Verbose => 40,
            Level::Debug => 48,
            Level::Trace => 56,
        }
    }

    pub fn code(self) -> (r: i32)
        ensures
            r == self.code_spec(),
    {
        match self {
            Level::Quiet => -8,
            Level::Panic => 0,
            Level::Fatal => 8,
            Level::Error => 16,
            Level::Warning => 24,
            Level::Info => 32,
            Level::Verbose => 40,
            Level::Debug => 48,
            Level::Trace => 56,
        }
    }

    /// The level with the given number; an error for any other number.
    pub fn from_code(code: i32) -> (r: Result<Level, Error>)
        ensures
            match r {
                Ok(l) => l.code_spec() == code,
                Err(_) => forall|l: Level| l.code_spec() != code,
            },
    {
        match code {
            -8 => Ok(Level::Quiet),
            0 => Ok(Level::Panic),
            8 => Ok(Level::Fatal),
            16 => Ok(Level::Error),
            24 => Ok(Level::Warning),
            32 => Ok(Level::Info),
            40 => Ok(Level::Verbose),
            48 => Ok(Level::Debug),
            56 => Ok(Level::Trace),
            _ => Err(Error::Message(String::from_str("no such log level"))),
        }
    }
}

} // verus!
