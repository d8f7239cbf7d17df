//! When the terminal is given back.

use vstd::prelude::*;

verus! {

/// Owns the terminal's raw mode, paste, wrap and mouse state. It is armed immediately
/// after the first state change, so that any later failure still restores it.
#[derive(Debug)]
pub struct TerminalGuard {
    pub restored: bool,
}

impl TerminalGuard {
    /// A guard that still has the terminal to restore.
    pub fn armed() -> (r: TerminalGuard)
        ensures
            !r.restored,
    {
        TerminalGuard { restored: false }
    }

    /// Whether the terminal must be restored now: on the first call, and on no later
    /// one.
    pub fn restore(&mut self) -> (due: bool)
        ensures
            due == !old(self).restored,
            final(self).restored,
    {
        if self.restored {
            return false;
        }
        self.restored = true;
        true
    }
}

} // verus!
