//! Interpretation of the clock-set primitive's outcome.
//!
//! The primitive itself — overwriting the operating system's local time — is
//! platform code and runs outside this crate; it reports a success flag and,
//! on failure, the platform's last-error code. The mapping of that pair into
//! the pipeline's own error is what this module pins down: the code is
//! carried through unmodified, never synthesized.

use vstd::prelude::*;

use crate::errors::OsError;

verus! {

/// Turns the clock-set primitive's success flag and last-error code into the
/// pipeline's result. On failure the platform code is surfaced as it was.
pub fn interpret_clock_set(succeeded: bool, last_error: u32) -> (r: Result<(), OsError>)
    ensures
        succeeded ==> r is Ok,
        !succeeded ==> r == Err::<(), OsError>(OsError::ClockSetFailed(last_error)),
{
    if succeeded {
        Ok(())
    } else {
        Err(OsError::ClockSetFailed(last_error))
    }
}

} // verus!
