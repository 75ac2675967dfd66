//! The errors this tool reports to its user.

use vstd::prelude::*;
use vstd::string::StringExecFns;

verus! {

/// Everything that can go wrong between reading the arguments and the last
/// child process exiting.
#[derive(Debug)]
pub enum RayError {
    /// A command that was expected to exist could not be found.
    CommandNotFound(String),
    /// A child process ran but reported failure.
    ExecutionFailed(String),
    /// A flag that needs a trailing argument (a package name or search term)
    /// received none.
    InvalidArguments(String),
    /// A child process could not be started at all.
    IoError(String),
    /// No arguments were given.
    UsageError,
}

/// The message shown to the user for each error.
pub open spec fn spec_message(e: RayError) -> Seq<char> {
    match e {
        RayError::CommandNotFound(cmd) => "Command not found: "@ + cmd@,
        RayError::ExecutionFailed(msg) => "Execution failed: "@ + msg@,
        RayError::InvalidArguments(msg) => "Invalid arguments: "@ + msg@,
        RayError::IoError(msg) => "IO error: "@ + msg@,
        RayError::UsageError => "Usage error: no arguments given"@,
    }
}

impl RayError {
    /// Render the error as the message shown on standard error.
    pub fn message(&self) -> (r: String)
        ensures
            r@ == spec_message(*self),
    {
        match self {
            RayError::CommandNotFound(cmd) => {
                String::from_str("Command not found: ").concat(cmd.as_str())
            },
            RayError::ExecutionFailed(msg) => {
                String::from_str("Execution failed: ").concat(msg.as_str())
            },
            RayError::InvalidArguments(msg) => {
                String::from_str("Invalid arguments: ").concat(msg.as_str())
            },
            RayError::IoError(msg) => {
                String::from_str("IO error: ").concat(msg.as_str())
            },
            RayError::UsageError => String::from_str("Usage error: no arguments given"),
        }
    }
}

} // verus!
