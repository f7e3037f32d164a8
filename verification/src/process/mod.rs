//! Process execution support.  The executor itself runs in the unverified
//! shell; this module holds its error classification.

pub mod errors;

use vstd::prelude::*;

verus! {

/// Centralized process executor.  Running a command and spawning one with
/// its diagnostic stream piped are outside work performed by the shell; the
/// library only names the executor and classifies its failures.
pub struct ProcessExecutor;

} // verus!
