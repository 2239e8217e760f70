//! The command line's arguments and their limits.

use crate::watcher::{interval_in_range, MAX_INTERVAL_SECS};
use std::path::PathBuf;
use vstd::prelude::*;

verus! {

/// The arguments that the command line gave.
#[derive(Debug)]
pub struct Cli {
    /// The configuration file to watch.
    pub config_file: PathBuf,
    /// How often to check the file, in seconds.
    pub interval: u64,
    /// Whether to report in detail.
    pub verbose: bool,
}

/// Why the arguments were refused.
#[derive(Debug, Clone, Copy, PartialEq, Eq, Structural)]
pub enum CliError {
    /// The check interval is zero.
    IntervalZero,
    /// The check interval is longer than an hour.
    IntervalTooLong,
}

impl CliError {
    /// The refusal in words.
    pub fn message(&self) -> (text: String)
        ensures
            text@ == match *self {
                CliError::IntervalZero => "Interval must be greater than 0 seconds"@,
                CliError::IntervalTooLong => "Interval cannot exceed 3600 seconds (1 hour)"@,
            },
    {
        match self {
            CliError::IntervalZero => "Interval must be greater than 0 seconds".to_string(),
            CliError::IntervalTooLong => "Interval cannot exceed 3600 seconds (1 hour)".to_string(),
        }
    }
}

impl Cli {
    /// Checks that the interval is one that a watcher can be made with.
    pub fn validate(&self) -> (checked: Result<(), CliError>)
        ensures
            checked is Ok <==> interval_in_range(self.interval),
            checked == if self.interval == 0 {
                Err::<(), CliError>(CliError::IntervalZero)
            } else if self.interval > MAX_INTERVAL_SECS {
                Err(CliError::IntervalTooLong)
            } else {
                Ok(())
            },
    {
        if self.interval == 0 {
            return Err(CliError::IntervalZero);
        }
        if self.interval > MAX_INTERVAL_SECS {
            return Err(CliError::IntervalTooLong);
        }
        Ok(())
    }
}

} // verus!
