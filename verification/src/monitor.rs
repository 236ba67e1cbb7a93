//! The monitoring techniques a child can be spawned with.
use vstd::prelude::*;

verus! {

/// Selects which monitoring technique(s) to apply to a child process.
///
/// Techniques are not mutually exclusive; combining them yields richer
/// classification.
#[derive(Debug, Clone, Copy, PartialEq, Eq, Structural)]
#[non_exhaustive]
pub enum Monitor {
    /// Launch the child as a debuggee: crash exception codes, fast-fail
    /// codes and crash addresses.  The child sees a debugger present.
    DebugApi,
    /// Assign the child to a job object with a completion port: tells a
    /// crash from a non-crash without making the child a debuggee.
    JobObject,
    /// Pass the child a pipe on which it reports an intentional exit: tells
    /// a clean exit from an external kill.
    Sentinel,
}

} // verus!
