//! Why the application stops.
use vstd::prelude::*;

verus! {

/// What interrupted the application.
#[derive(Debug, Clone, Copy, PartialEq, Eq, Structural)]
pub enum Interrupted {
    /// The operating system's interrupt signal.
    OsSigInt,
    /// The operating system's quit signal.
    OsSigQuit,
    /// The operating system's terminate signal.
    OsSigTerm,
    /// The user quit.
    UserInt,
}

} // verus!
