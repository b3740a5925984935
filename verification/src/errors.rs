//! The failure categories of the core. Every fallible operation of the
//! library reports one of these; none is recovered locally — each one is
//! meant to propagate out of the frame loop and end the session.

use vstd::prelude::*;

verus! {

/// Why an operation of the core failed.
#[derive(Clone, Copy, Debug, PartialEq, Eq, Structural)]
pub enum TermError {
    /// Polling for or reading the next input event failed.
    Input,
    /// Queuing a draw command or flushing the render buffer failed.
    Render,
    /// Bytes handed to the render buffer were not valid text; nothing
    /// was accepted.
    Encoding,
    /// Restoring the terminal during teardown failed; this must end the
    /// process loudly rather than be swallowed.
    Restore,
}

} // verus!
