//! Terminal teardown: restore canonical input mode and wipe the screen, on
//! every exit path. Both steps are always attempted, and a failure of
//! either is reported rather than swallowed — leaving the terminal raw with
//! stale content is worse than a loud crash, so the caller is expected to
//! let a reported failure end the process.

use vstd::prelude::*;
use crate::errors::TermError;
use crate::screen::Display;
use crate::term::raw_mode_disable;

verus! {

/// Whether a release with these step outcomes counts as clean.
pub open spec fn release_clean(restored: bool, wiped: bool) -> bool {
    restored && wiped
}

/// Combine the outcomes of the two teardown steps: clean exactly when both
/// steps succeeded; any failure surfaces as a restoration error.
pub fn guard_outcome(restored: bool, wiped: bool) -> (r: Result<(), TermError>)
    ensures
        (r is Ok) == release_clean(restored, wiped),
        r is Err ==> r == Err::<(), TermError>(TermError::Restore),
{
    if restored && wiped {
        Ok(())
    } else {
        Err(TermError::Restore)
    }
}

/// Release the terminal: take the driver out of raw mode, then clear the
/// screen and home the cursor. Both steps run unconditionally — a failure
/// of the first does not skip the second — and the result is clean only
/// when both succeeded.
pub fn release_terminal() -> (r: Result<(), TermError>)
    ensures
        r is Err ==> r == Err::<(), TermError>(TermError::Restore),
{
    let restored = raw_mode_disable();
    let wiped = Display::wipe_screen();
    guard_outcome(restored.is_ok(), wiped.is_ok())
}

} // verus!
