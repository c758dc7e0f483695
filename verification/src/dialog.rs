//! The dialog supervisor's decision logic: at most one alert-dialog process
//! is ever tracked, opening is idempotent while a dialog is alive, and
//! closing force-terminates whatever is tracked.
//!
//! The external process handle itself (and the lock that serializes callers)
//! lives outside the library; the caller holds the lock, probes the tracked
//! process for liveness without blocking, and asks this module what to do.
//! Because the lock serializes `open_alert` and `close_alert`, the
//! transitions below describe every interleaving.

use vstd::prelude::*;

verus! {

/// What the caller must do after asking to open the alert dialog.
#[derive(Debug, Clone, Copy, PartialEq, Eq, Structural)]
pub enum OpenDecision {
    /// Spawn a new dialog process and track its handle.
    Spawn,
    /// A live dialog is already tracked: spawn nothing, log the suppressed
    /// duplicate.
    Suppress,
}

/// What the caller must do after asking to close the alert dialog.
#[derive(Debug, Clone, Copy, PartialEq, Eq, Structural)]
pub enum CloseDecision {
    /// Force-terminate the tracked process (this is what dismisses the
    /// dialog) and stop tracking it.
    Kill,
    /// Nothing was tracked: no-op.
    NoDialog,
}

/// Whether a dialog handle is tracked after an open request. A handle is
/// always tracked afterwards: either the old live one was kept, or a new
/// process was spawned.
pub open spec fn spec_open_next(tracked_before: bool) -> bool {
    true
}

/// The open decision: spawn unless a handle is tracked and its process is
/// still alive.
pub open spec fn spec_open_decision(tracked_before: bool, alive: bool) -> OpenDecision {
    if tracked_before && alive {
        OpenDecision::Suppress
    } else {
        OpenDecision::Spawn
    }
}

/// Whether a dialog handle is tracked after a close request: never.
pub open spec fn spec_close_next(tracked_before: bool) -> bool {
    false
}

/// The close decision: kill exactly when a handle is tracked.
pub open spec fn spec_close_decision(tracked_before: bool) -> CloseDecision {
    if tracked_before {
        CloseDecision::Kill
    } else {
        CloseDecision::NoDialog
    }
}

/// Tracks whether an external alert-dialog process handle is currently held.
/// `open_alert` and `close_alert` are the only mutators; the caller must
/// serialize them under one lock, together with the action each decision
/// demands.
#[derive(Debug, Clone, Copy, PartialEq, Eq, Structural)]
pub struct DialogSupervisor {
    /// Whether a process handle is tracked: at any instant at most one is.
    pub handle_tracked: bool,
}

impl DialogSupervisor {
    /// A fresh supervisor tracks no dialog.
    pub fn new() -> (r: Self)
        ensures
            !r.handle_tracked,
    {
        DialogSupervisor { handle_tracked: false }
    }

    /// Asks to open the alert dialog. `alive` is the result of the
    /// non-blocking liveness probe of the tracked process; it is ignored
    /// when nothing is tracked. Afterwards exactly one handle is tracked.
    pub fn open_alert(&mut self, alive: bool) -> (r: OpenDecision)
        ensures
            r == spec_open_decision(old(self).handle_tracked, alive),
            final(self).handle_tracked == spec_open_next(old(self).handle_tracked),
    {
        if self.handle_tracked && alive {
            OpenDecision::Suppress
        } else {
            self.handle_tracked = true;
            OpenDecision::Spawn
        }
    }

    /// Asks to close the alert dialog. Afterwards no handle is tracked.
    pub fn close_alert(&mut self) -> (r: CloseDecision)
        ensures
            r == spec_close_decision(old(self).handle_tracked),
            final(self).handle_tracked == spec_close_next(old(self).handle_tracked),
    {
        if self.handle_tracked {
            self.handle_tracked = false;
            CloseDecision::Kill
        } else {
            CloseDecision::NoDialog
        }
    }
}

/// Dialog idempotence: after any open request, a second open request made
/// while the first dialog's process is still alive is suppressed, and
/// exactly one handle stays tracked.
pub proof fn lemma_open_alert_idempotent(tracked_before: bool)
    ensures
        spec_open_decision(spec_open_next(tracked_before), true) == OpenDecision::Suppress,
        spec_open_next(spec_open_next(tracked_before)) == spec_open_next(tracked_before),
{
}

/// Whichever order the lock serializes them in, once a close request has
/// run after an open request, no live dialog process is tracked.
pub proof fn lemma_close_supersedes_open(tracked_before: bool)
    ensures
        !spec_close_next(spec_open_next(tracked_before)),
{
}

} // verus!
