//! Command-line options.

use vstd::prelude::*;

verus! {

/// How much the program logs.
#[derive(Clone, Copy, Debug, PartialEq, Eq, Structural)]
pub enum LogLevel {
    Warn,
    Info,
    Debug,
    Trace,
}

/// The level that `verbose` repetitions of the verbose flag select.
pub open spec fn level_for(verbose: u8) -> LogLevel {
    if verbose == 0 {
        LogLevel::Warn
    } else if verbose == 1 {
        LogLevel::Info
    } else if verbose == 2 {
        LogLevel::Debug
    } else {
        LogLevel::Trace
    }
}

/// Parsed command-line options.
#[derive(Debug)]
pub struct Args {
    /// How many times the verbose flag was given.
    pub verbose: u8,
}

impl Args {
    /// Warnings by default; each verbose flag adds detail, up to tracing.
    pub fn log_level(&self) -> (r: LogLevel)
        ensures
            r == level_for(self.verbose),
    {
        match self.verbose {
            0 => LogLevel::Warn,
            1 => LogLevel::Info,
            2 => LogLevel::Debug,
            _ => LogLevel::Trace,
        }
    }
}

} // verus!
