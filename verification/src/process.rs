//! Classifying the solver process's outcome.
//!
//! Spawning the process, waiting for it and capturing its output is
//! the embedding application's part; the classification of the exit
//! status is decided here.  Success is a zero exit code and nothing
//! else: a nonzero code, or a missing one (the process was terminated
//! by a signal), fails the invocation with the code and the full
//! captured output, so the caller can diagnose solver-side problems.

use vstd::prelude::*;
use crate::errors::Error;

verus! {

/// Classifies a completed solver run from its exit code and captured
/// output.  The failure carries the exit code and the exact captured
/// standard output and standard error text.
pub fn classify_exit(code: Option<i32>, stdout: String, stderr: String) -> (r: Result<(), Error>)
    ensures
        match r {
            Ok(_) => code == Some(0i32),
            Err(e) => code != Some(0i32) && e == (Error::Process { code, stdout, stderr }),
        },
{
    match code {
        Some(0i32) => Ok(()),
        _ => Err(Error::Process { code, stdout, stderr }),
    }
}

} // verus!
