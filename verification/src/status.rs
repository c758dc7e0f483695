//! Status snapshots from the timer and the change detector that gates all
//! downstream actions.

use vstd::prelude::*;
use vstd::string::*;

use crate::text::spec_i64_dec;
use crate::text::i64_dec;

verus! {

/// Nanoseconds in one minute: the unit the timer's `remaining` field is
/// bucketed by for display and change detection.
pub const MINUTE_NANOS: i64 = 60_000_000_000;

/// The timer's phase. Wire codes outside the known range decode to `Unknown`;
/// the raw integer never propagates past the decode boundary.
#[derive(Clone, Copy, Debug, PartialEq, Eq, Structural)]
pub enum TimerState {
    Unknown,
    Running,
    Breaking,
    Complete,
    Paused,
}

/// One decoded status snapshot: the timer's phase, the high-resolution time
/// remaining (negative means time since the target passed), and the pomodoro
/// counters, which are carried through but not used in detection.
#[derive(Clone, Copy, Debug, PartialEq, Eq, Structural)]
pub struct Status {
    pub state: TimerState,
    pub remaining: i64,
    pub count: u8,
    pub n_pomodoros: u8,
}

/// Remaining time bucketed to minutes: `floor(remaining / minute) + 1`.
/// The `+ 1` avoids displaying "0m" during the last sub-minute of a running
/// interval; the sign is preserved, so a negative result means minutes
/// elapsed since the target.
pub open spec fn spec_remaining_minutes(remaining: int) -> int {
    1 + remaining / (MINUTE_NANOS as int)
}

/// The change detector's gate: a candidate snapshot is an observable change
/// when the phase differs, or when the minute bucket differs while the
/// previous phase is not `Complete` (once complete, elapsed time keeps
/// counting and must not re-trigger actions every minute).
pub open spec fn spec_is_change(prev: Status, candidate: Status) -> bool {
    prev.state != candidate.state || (spec_remaining_minutes(prev.remaining as int)
        != spec_remaining_minutes(candidate.remaining as int) && prev.state
        != TimerState::Complete)
}

impl Status {
    /// Remaining time in whole minutes, floor-bucketed with the `+ 1`
    /// adjustment described at `spec_remaining_minutes`.
    pub fn remaining_minutes(&self) -> (r: i64)
        ensures
            r == spec_remaining_minutes(self.remaining as int),
    {
        proof {
            // The quotient lies between i64::MIN / minute and i64::MAX / minute,
            // so the checked division cannot fail.
            vstd::arithmetic::div_mod::lemma_div_is_ordered(
                i64::MIN as int,
                self.remaining as int,
                MINUTE_NANOS as int,
            );
            vstd::arithmetic::div_mod::lemma_div_is_ordered(
                self.remaining as int,
                i64::MAX as int,
                MINUTE_NANOS as int,
            );
            vstd::arithmetic::div_mod::lemma_fundamental_div_mod(
                i64::MIN as int,
                MINUTE_NANOS as int,
            );
            vstd::arithmetic::div_mod::lemma_fundamental_div_mod(
                i64::MAX as int,
                MINUTE_NANOS as int,
            );
        }
        match self.remaining.checked_div_euclid(MINUTE_NANOS) {
            Some(q) => 1 + q,
            None => 0,
        }
    }

    /// Whether `candidate` is an observable change relative to `self`, the
    /// last accepted snapshot. This is the single gate for all downstream
    /// effects; it is pure and deterministic.
    pub fn is_change(&self, candidate: &Status) -> (r: bool)
        ensures
            r == spec_is_change(*self, *candidate),
    {
        self.state != candidate.state || (self.remaining_minutes()
            != candidate.remaining_minutes() && self.state != TimerState::Complete)
    }
}

/// The full display name of a phase.
pub open spec fn spec_state_name(s: TimerState) -> Seq<char> {
    match s {
        TimerState::Unknown => "UNKNOWN"@,
        TimerState::Running => "RUNNING"@,
        TimerState::Breaking => "BREAKING"@,
        TimerState::Complete => "COMPLETE"@,
        TimerState::Paused => "PAUSED"@,
    }
}

/// The one-letter display name of a phase.
pub open spec fn spec_short_state_name(s: TimerState) -> Seq<char> {
    match s {
        TimerState::Unknown => "U"@,
        TimerState::Running => "R"@,
        TimerState::Breaking => "B"@,
        TimerState::Complete => "C"@,
        TimerState::Paused => "P"@,
    }
}

/// The remaining-time description shown to the operator. `Unknown` is the
/// only phase with an empty description: during the last sub-minute past the
/// target it reads "0m", further past the target it reads "Nm ago", and while
/// time is still left it reads "now".
pub open spec fn spec_format_remaining(s: Status) -> Seq<char> {
    let rm = spec_remaining_minutes(s.remaining as int);
    if s.state == TimerState::Unknown {
        Seq::<char>::empty()
    } else if rm == 0 {
        "0m"@
    } else if rm < 0 {
        spec_i64_dec(-rm) + "m ago"@
    } else {
        "now"@
    }
}

impl Status {
    /// The full display name of the snapshot's phase.
    pub fn state(&self) -> (r: &'static str)
        ensures
            r@ == spec_state_name(self.state),
    {
        match self.state {
            TimerState::Running => "RUNNING",
            TimerState::Breaking => "BREAKING",
            TimerState::Complete => "COMPLETE",
            TimerState::Paused => "PAUSED",
            TimerState::Unknown => "UNKNOWN",
        }
    }

    /// The one-letter display name of the snapshot's phase.
    pub fn short_state(&self) -> (r: &'static str)
        ensures
            r@ == spec_short_state_name(self.state),
    {
        match self.state {
            TimerState::Running => "R",
            TimerState::Breaking => "B",
            TimerState::Complete => "C",
            TimerState::Paused => "P",
            TimerState::Unknown => "U",
        }
    }

    /// The remaining-time description, per `spec_format_remaining`.
    pub fn format_remaining(&self) -> (r: String)
        ensures
            r@ == spec_format_remaining(*self),
    {
        if self.state == TimerState::Unknown {
            return String::new();
        }
        let rm = self.remaining_minutes();
        if rm == 0 {
            "0m".to_owned()
        } else if rm < 0 {
            proof {
                vstd::arithmetic::div_mod::lemma_div_is_ordered(
                    i64::MIN as int,
                    self.remaining as int,
                    MINUTE_NANOS as int,
                );
            }
            let mut s = i64_dec(-rm);
            s.append("m ago");
            s
        } else {
            "now".to_owned()
        }
    }
}

/// `Unknown` is the only phase whose remaining-time description is empty;
/// every other phase renders a non-empty description.
pub proof fn lemma_format_remaining_empty_iff_unknown(s: Status)
    ensures
        spec_format_remaining(s).len() == 0 <==> s.state == TimerState::Unknown,
{
    let rm = spec_remaining_minutes(s.remaining as int);
    if s.state != TimerState::Unknown {
        if rm == 0 {
            reveal_strlit("0m");
        } else if rm < 0 {
            crate::text::lemma_i64_dec_nonempty(-rm);
        } else {
            reveal_strlit("now");
        }
    }
}

/// Snapshots with equal phase and equal minute bucket are never a change.
pub proof fn lemma_no_change_when_equal(a: Status, b: Status)
    requires
        a.state == b.state,
        spec_remaining_minutes(a.remaining as int) == spec_remaining_minutes(b.remaining as int),
    ensures
        !spec_is_change(a, b),
{
}

/// Once the timer is complete, further ticking of the elapsed time is never
/// a change: two `Complete` snapshots never differ, whatever their
/// `remaining` fields hold.
pub proof fn lemma_complete_is_quiescent(a: Status, b: Status)
    requires
        a.state == TimerState::Complete,
        b.state == TimerState::Complete,
    ensures
        !spec_is_change(a, b),
{
}

/// A phase transition is always a change.
pub proof fn lemma_state_transition_is_change(a: Status, b: Status)
    requires
        a.state != b.state,
    ensures
        spec_is_change(a, b),
{
}

/// The off-by-one guard: anywhere in the first minute past the target
/// (`remaining` in `[-minute, -1]`), the minute bucket is 0, not -1.
pub proof fn lemma_first_minute_past_target_is_zero(remaining: int)
    requires
        -(MINUTE_NANOS as int) <= remaining <= -1,
    ensures
        spec_remaining_minutes(remaining) == 0,
{
    vstd::arithmetic::div_mod::lemma_fundamental_div_mod(remaining, MINUTE_NANOS as int);
    vstd::arithmetic::div_mod::lemma_div_is_ordered(
        -(MINUTE_NANOS as int),
        remaining,
        MINUTE_NANOS as int,
    );
    vstd::arithmetic::div_mod::lemma_div_is_ordered(remaining, -1, MINUTE_NANOS as int);
}

} // verus!
