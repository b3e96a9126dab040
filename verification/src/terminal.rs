//! Ownership of the terminal while the dashboard runs.

use vstd::prelude::*;

verus! {

/// Holds the terminal while the dashboard draws, so that it can be restored
/// when the guard goes away.
pub struct TerminalGuard<T> {
    terminal: Option<T>,
}

impl<T> TerminalGuard<T> {
    /// The terminal the guard holds, if any.
    pub closed spec fn held(&self) -> Option<T> {
        self.terminal
    }

    /// A guard holding `terminal`.
    pub fn new(terminal: T) -> (g: Self)
        ensures
            g.held() == Some(terminal),
    {
        TerminalGuard { terminal: Some(terminal) }
    }

    /// Whether the guard holds a terminal.
    pub fn has_terminal(&self) -> (r: bool)
        ensures
            r == self.held() is Some,
    {
        self.terminal.is_some()
    }

    /// The terminal, to draw on; the guard keeps whatever the caller leaves
    /// in it.
    pub fn terminal_mut(&mut self) -> (t: &mut T)
        requires
            old(self).held() is Some,
        ensures
            *t == old(self).held()->0,
            final(self).held() == Some(*final(t)),
    {
        self.terminal.as_mut().expect("terminal must be available before draw")
    }
}

} // verus!
