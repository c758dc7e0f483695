//! The process-wide application state and the one step the server loop
//! performs per inbound snapshot: gate it through the change detector and,
//! on acceptance, record it and plan the dispatch.

use vstd::prelude::*;

use crate::dispatch::Action;
use crate::dispatch::dispatch;
use crate::dispatch::is_dispatch_plan;
use crate::status::Status;
use crate::status::TimerState;
use crate::status::spec_is_change;

verus! {

/// The accepted-snapshot state: the last accepted snapshot drives all
/// decisions; the prior one is kept for diagnostics only. Created once at
/// startup and mutated only by the server loop. The one other piece of
/// process-wide state, the alert-dialog process handle, is an external
/// resource shared across threads; its lifecycle is governed by
/// `crate::dialog::DialogSupervisor` under the caller's lock.
#[derive(Debug, Clone, Copy, PartialEq, Eq, Structural)]
pub struct ApplicationState {
    pub current_status: Status,
    pub previous_status: Status,
}

impl ApplicationState {
    /// The startup state: nothing accepted yet, phase `Unknown`.
    pub fn new() -> (r: Self)
        ensures
            r.current_status == initial_status(),
            r.previous_status == initial_status(),
    {
        let initial = Status {
            state: TimerState::Unknown,
            remaining: 0,
            count: 0,
            n_pomodoros: 0,
        };
        ApplicationState { current_status: initial, previous_status: initial }
    }

    /// One step of the server loop: if `candidate` is an observable change
    /// relative to the last accepted snapshot, accept it and return the
    /// plan of external actions for it; otherwise leave everything as it
    /// was and return nothing, so no action runs for snapshots that are not
    /// changes.
    pub fn on_snapshot(&mut self, candidate: Status) -> (r: Option<Vec<Action>>)
        ensures
            spec_is_change(old(self).current_status, candidate) ==> {
                &&& final(self).current_status == candidate
                &&& final(self).previous_status == old(self).current_status
                &&& r matches Some(plan) && is_dispatch_plan(candidate, plan@)
            },
            !spec_is_change(old(self).current_status, candidate) ==> {
                &&& *final(self) == *old(self)
                &&& r is None
            },
    {
        if self.current_status.is_change(&candidate) {
            self.previous_status = self.current_status;
            self.current_status = candidate;
            Some(dispatch(&self.current_status))
        } else {
            None
        }
    }
}

/// The snapshot the application starts from.
pub open spec fn initial_status() -> Status {
    Status { state: TimerState::Unknown, remaining: 0, count: 0, n_pomodoros: 0 }
}

impl Default for ApplicationState {
    /// Same as `ApplicationState::new`.
    fn default() -> (r: Self)
        ensures
            r.current_status == initial_status(),
            r.previous_status == initial_status(),
    {
        ApplicationState::new()
    }
}

} // verus!
