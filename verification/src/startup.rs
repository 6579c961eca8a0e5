//! Decision logic for the "launch at login" toggle.
//!
//! The persisted state itself lives in a per-user OS configuration store and
//! is read and written outside this library; the library only decides, from
//! the current state, which change the toggle must apply.

use vstd::prelude::*;

verus! {

/// The change that a toggle of the autostart setting must apply.
#[derive(Clone, Copy, Debug, PartialEq, Eq, Structural)]
pub enum StartupChange {
    /// Register the application so that it starts at login.
    Enable,
    /// Remove the registration.
    Disable,
}

/// Decide what toggling the autostart setting does, given whether it is
/// currently enabled.
pub fn startup_transition(enabled: bool) -> (change: StartupChange)
    ensures
        change == (if enabled {
            StartupChange::Disable
        } else {
            StartupChange::Enable
        }),
{
    if enabled {
        StartupChange::Disable
    } else {
        StartupChange::Enable
    }
}

} // verus!
