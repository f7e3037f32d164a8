//! Process execution errors.

use vstd::prelude::*;

verus! {

/// Errors that can occur during command execution.
#[derive(Debug, Clone)]
pub enum ProcessError {
    /// The named command could not be executed at all.
    ExecutionFailed(String),
}

impl ProcessError {
    /// The user-facing description of the failure.
    pub fn message(&self) -> (m: String)
        ensures
            match self {
                ProcessError::ExecutionFailed(cmd) => m@ == "Command '"@ + cmd@
                    + "' failed to execute. Please check the command exists and has proper permissions."@,
            },
    {
        match self {
            ProcessError::ExecutionFailed(cmd) => {
                let mut m = String::from_str("Command '");
                m.append(cmd.as_str());
                m.append("' failed to execute. Please check the command exists and has proper permissions.");
                m
            },
        }
    }
}

/// Result type for process operations.
pub type ProcessResult<T> = Result<T, ProcessError>;

} // verus!
