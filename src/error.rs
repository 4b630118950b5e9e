use vstd::prelude::*;

verus! {

/// Why a notification could not be dispatched.
#[derive(Clone, Copy, Debug, PartialEq, Eq, Structural)]
pub enum NotifyError {
    /// The operating system's display call reported failure.
    NativeCallFailed,
    /// A text holds a null byte, so it has no null-terminated form.
    InvalidText,
    /// The external notification command could not be started.
    SpawnFailed,
}

} // verus!
