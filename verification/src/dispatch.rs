//! The notification dispatcher: maps an accepted snapshot to the sequence of
//! external actions to run. The actions themselves are opaque collaborators
//! (status indicator, focus mode, automation scripts, the alert dialog);
//! this module only decides which to invoke, in what order, and with what
//! arguments.

use vstd::prelude::*;
use vstd::string::*;

use crate::status::Status;
use crate::status::TimerState;
use crate::status::spec_format_remaining;
use crate::status::spec_remaining_minutes;
use crate::text::spec_i64_dec;
use crate::text::i64_dec;

verus! {

/// How many real seconds before the nominal minute boundary the delayed
/// end-of-focus action fires: deliberately earlier than 60 so a downstream
/// consumer's own notification has time to land.
pub const UNFOCUS_DELAY_SECS: u64 = 56;

/// One external side effect to perform. Execution (spawning processes,
/// threads, timers) is outside the library; the dispatcher only names the
/// action and its arguments.
#[derive(Debug, PartialEq, Eq)]
pub enum Action {
    /// Update the status indicator; empty strings clear it.
    SetIndicator { icon: String, message: String },
    /// Turn focus mode on or off, immediately. Turning it off when already
    /// off must be a no-op for the collaborator.
    SetFocus { on: bool },
    /// Schedule a detached, non-cancelable task that turns focus mode off
    /// after the given delay.
    ScheduleUnfocus { delay_secs: u64 },
    /// Force-close the alert dialog if one is open.
    CloseDialog,
    /// Asynchronously sound the chime and open the alert dialog with the
    /// given message, without blocking the dispatch call.
    Alert { message: String },
}

pub open spec fn is_set_indicator(a: Action, icon: Seq<char>, message: Seq<char>) -> bool {
    &&& a matches Action::SetIndicator { icon: i, message: m }
    &&& i@ == icon
    &&& m@ == message
}

pub open spec fn is_set_focus(a: Action, on: bool) -> bool {
    a matches Action::SetFocus { on: o } && o == on
}

pub open spec fn is_schedule_unfocus(a: Action, delay_secs: int) -> bool {
    a matches Action::ScheduleUnfocus { delay_secs: d } && d == delay_secs
}

pub open spec fn is_close_dialog(a: Action) -> bool {
    a is CloseDialog
}

pub open spec fn is_alert(a: Action, message: Seq<char>) -> bool {
    a matches Action::Alert { message: m } && m@ == message
}

/// The indicator message while focused: "focused: Nm to break".
pub open spec fn spec_focused_message(rm: int) -> Seq<char> {
    "focused: "@ + spec_i64_dec(rm) + "m to break"@
}

/// The alert-dialog message once a pomodoro ends: "Pomodoro done " followed
/// by the remaining-time description.
pub open spec fn spec_alert_message(s: Status) -> Seq<char> {
    "Pomodoro done "@ + spec_format_remaining(s)
}

/// The plan while the timer runs: update the indicator, close any open alert
/// dialog, then either schedule the delayed end-of-focus task (during the
/// last minute) or turn focus mode on immediately.
pub open spec fn is_running_plan(s: Status, plan: Seq<Action>) -> bool {
    let rm = spec_remaining_minutes(s.remaining as int);
    &&& plan.len() == 3
    &&& is_set_indicator(plan[0], "tomato"@, spec_focused_message(rm))
    &&& is_close_dialog(plan[1])
    &&& if rm == 1 {
        is_schedule_unfocus(plan[2], UNFOCUS_DELAY_SECS as int)
    } else {
        is_set_focus(plan[2], true)
    }
}

/// The plan on leaving focused work: turn focus mode off and clear the
/// status indicator.
pub open spec fn is_off_plan(plan: Seq<Action>) -> bool {
    &&& plan.len() == 2
    &&& is_set_focus(plan[0], false)
    &&& is_set_indicator(plan[1], Seq::<char>::empty(), Seq::<char>::empty())
}

/// The plan when a pomodoro ends (break starts or the timer completes): the
/// off plan, then the asynchronous alert.
pub open spec fn is_complete_plan(s: Status, plan: Seq<Action>) -> bool {
    &&& plan.len() == 3
    &&& is_off_plan(plan.take(2))
    &&& is_alert(plan[2], spec_alert_message(s))
}

/// The full dispatch contract: which plan each phase gets. `Unknown` (the
/// initial phase only) triggers nothing.
pub open spec fn is_dispatch_plan(s: Status, plan: Seq<Action>) -> bool {
    match s.state {
        TimerState::Unknown => plan.len() == 0,
        TimerState::Running => is_running_plan(s, plan),
        TimerState::Breaking => is_complete_plan(s, plan),
        TimerState::Complete => is_complete_plan(s, plan),
        TimerState::Paused => is_off_plan(plan),
    }
}

/// The automation script that sounds the alert chime. The alert path runs it
/// right before opening the dialog.
pub fn beepbeep() -> (r: String)
    ensures
        r@ == "beep 8"@,
{
    "beep 8".to_owned()
}

/// Actions on leaving focused work: focus mode off, indicator cleared.
pub fn pomodoro_off() -> (r: Vec<Action>)
    ensures
        is_off_plan(r@),
{
    let mut plan: Vec<Action> = Vec::new();
    plan.push(Action::SetFocus { on: false });
    plan.push(Action::SetIndicator { icon: String::new(), message: String::new() });
    plan
}

/// Actions while the timer runs, per `is_running_plan`.
pub fn pomodoro_on(status: &Status) -> (r: Vec<Action>)
    ensures
        is_running_plan(*status, r@),
{
    let rm = status.remaining_minutes();
    let mut message = "focused: ".to_owned();
    let digits = i64_dec(rm);
    message.append(digits.as_str());
    message.append("m to break");
    let mut plan: Vec<Action> = Vec::new();
    plan.push(Action::SetIndicator { icon: "tomato".to_owned(), message });
    plan.push(Action::CloseDialog);
    if rm == 1 {
        plan.push(Action::ScheduleUnfocus { delay_secs: UNFOCUS_DELAY_SECS });
    } else {
        plan.push(Action::SetFocus { on: true });
    }
    plan
}

/// Actions when a pomodoro ends, per `is_complete_plan`.
pub fn pomodoro_complete(status: &Status) -> (r: Vec<Action>)
    ensures
        is_complete_plan(*status, r@),
{
    let mut plan = pomodoro_off();
    let ghost off_plan: Seq<Action> = plan@;
    let mut message = "Pomodoro done ".to_owned();
    let rest = status.format_remaining();
    message.append(rest.as_str());
    plan.push(Action::Alert { message });
    proof {
        assert(plan@.take(2) =~= off_plan);
    }
    plan
}

/// Maps an accepted snapshot to its plan of external actions. Invoked only
/// for snapshots the change detector accepted.
pub fn dispatch(status: &Status) -> (r: Vec<Action>)
    ensures
        is_dispatch_plan(*status, r@),
{
    match status.state {
        TimerState::Running => pomodoro_on(status),
        TimerState::Breaking => pomodoro_complete(status),
        TimerState::Complete => pomodoro_complete(status),
        TimerState::Paused => pomodoro_off(),
        TimerState::Unknown => Vec::new(),
    }
}

} // verus!
