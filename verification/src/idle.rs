//! Tracks the idle/AFK state: a two-state model with the time the current
//! state began and the configured idle threshold.
//!
//! Timestamps are whole milliseconds since the Unix epoch, as the clock
//! reports them.

use vstd::prelude::*;
use vstd::string::StringExecFns;

verus! {

/// The idle tracker: whether the user is away from keyboard, when the
/// current state began, and the idle threshold that the timeout source was
/// configured with (fixed at construction).
pub struct AfkState {
    pub is_afk: bool,
    pub state_start_ms: i64,
    pub timeout_ms: u32,
}

/// Ghost model of the idle tracker, over unbounded integers.
pub struct AfkStateView {
    pub is_afk: bool,
    pub state_start_ms: int,
    pub timeout_ms: int,
}

impl View for AfkState {
    type V = AfkStateView;

    open spec fn view(&self) -> AfkStateView {
        AfkStateView {
            is_afk: self.is_afk,
            state_start_ms: self.state_start_ms as int,
            timeout_ms: self.timeout_ms as int,
        }
    }
}

/// A decoded idle-timeout event: the idle timer fired, or input resumed.
#[derive(Debug, Clone, Copy, PartialEq, Eq, Structural)]
pub enum IdleEvent {
    Idle,
    Resumed,
}

/// The tracker state after an idle-timeout event at time `now_ms`: the AFK
/// flag follows the event, and the state start is reset to now on every
/// transition; the threshold never changes.
pub open spec fn spec_idle_step(s: AfkStateView, e: IdleEvent, now_ms: int) -> AfkStateView {
    AfkStateView { is_afk: e is Idle, state_start_ms: now_ms, timeout_ms: s.timeout_ms }
}

/// The status label carried by an activity record.
pub open spec fn spec_afk_status(is_afk: bool) -> Seq<char> {
    if is_afk {
        "afk"@
    } else {
        "not-afk"@
    }
}

/// The timestamp an activity record reports at time `now_ms`. While AFK the
/// period is still open-ended, so the record is dated "as of now". While
/// active, the record is dated at the latest point where activity is
/// certain: activity began no earlier than `state_start_ms`, and the idle
/// timer not having fired certifies activity no further back than
/// `timeout_ms` before now — the later of the two is reported.
pub open spec fn spec_activity_timestamp(s: AfkStateView, now_ms: int) -> int {
    if s.is_afk {
        now_ms
    } else if now_ms - s.timeout_ms > s.state_start_ms {
        now_ms - s.timeout_ms
    } else {
        s.state_start_ms
    }
}

/// Ghost model of an activity record.
pub struct ActivityRecordView {
    pub timestamp_ms: int,
    pub duration_ms: int,
    pub status: Seq<char>,
}

/// The activity record synthesized from tracker state `s` at time `now_ms`:
/// an instantaneous status marker (zero duration), not an interval.
pub open spec fn spec_activity_record(s: AfkStateView, now_ms: int) -> ActivityRecordView {
    ActivityRecordView {
        timestamp_ms: spec_activity_timestamp(s, now_ms),
        duration_ms: 0,
        status: spec_afk_status(s.is_afk),
    }
}

/// A point-in-time activity status record: a timestamp, a zero duration,
/// and a status of `"afk"` or `"not-afk"`.
#[derive(Debug)]
pub struct ActivityRecord {
    pub timestamp_ms: i64,
    pub duration_ms: i64,
    pub status: String,
}

impl View for ActivityRecord {
    type V = ActivityRecordView;

    open spec fn view(&self) -> ActivityRecordView {
        ActivityRecordView {
            timestamp_ms: self.timestamp_ms as int,
            duration_ms: self.duration_ms as int,
            status: self.status@,
        }
    }
}

impl AfkState {
    /// A fresh tracker: active (not AFK) as of `now_ms`, with the given
    /// idle threshold.
    pub fn new(timeout_ms: u32, now_ms: i64) -> (s: Self)
        ensures
            s@ == (AfkStateView {
                is_afk: false,
                state_start_ms: now_ms as int,
                timeout_ms: timeout_ms as int,
            }),
    {
        AfkState { is_afk: false, state_start_ms: now_ms, timeout_ms }
    }

    /// The idle timer fired at `now_ms`: the user is now AFK.
    pub fn on_idle(&mut self, now_ms: i64)
        ensures
            final(self)@ == spec_idle_step(old(self)@, IdleEvent::Idle, now_ms as int),
    {
        self.is_afk = true;
        self.state_start_ms = now_ms;
    }

    /// Input resumed at `now_ms`: the user is active again.
    pub fn on_resumed(&mut self, now_ms: i64)
        ensures
            final(self)@ == spec_idle_step(old(self)@, IdleEvent::Resumed, now_ms as int),
    {
        self.is_afk = false;
        self.state_start_ms = now_ms;
    }

    /// Applies one decoded idle-timeout event observed at `now_ms`.
    pub fn apply(&mut self, event: IdleEvent, now_ms: i64)
        ensures
            final(self)@ == spec_idle_step(old(self)@, event, now_ms as int),
    {
        match event {
            IdleEvent::Idle => self.on_idle(now_ms),
            IdleEvent::Resumed => self.on_resumed(now_ms),
        }
    }

    /// The activity record for this state as of `now_ms`, dated by the
    /// certified-activity rule of `spec_activity_timestamp`.
    pub fn activity_event_at(&self, now_ms: i64) -> (r: ActivityRecord)
        ensures
            r@ == spec_activity_record(self@, now_ms as int),
    {
        let timestamp_ms: i64 = if self.is_afk {
            now_ms
        } else {
            // When the subtraction would leave i64, the mathematical value
            // is below any representable state start, so the maximum is the
            // state start itself.
            match now_ms.checked_sub(self.timeout_ms as i64) {
                Some(last_guaranteed) => if last_guaranteed > self.state_start_ms {
                    last_guaranteed
                } else {
                    self.state_start_ms
                },
                None => self.state_start_ms,
            }
        };
        let status = if self.is_afk {
            String::from_str("afk")
        } else {
            String::from_str("not-afk")
        };
        ActivityRecord { timestamp_ms, duration_ms: 0, status }
    }

    /// The activity record as of the current clock reading. The clock is
    /// outside the tracker's control, so the record is pinned to some
    /// reading; its status and duration are fixed by the state alone, and
    /// while active it is never dated before the state began.
    pub fn get_current_afk_event(&self) -> (r: ActivityRecord)
        ensures
            exists|now_ms: int| r@ == spec_activity_record(self@, now_ms),
            r@.duration_ms == 0,
            r@.status == spec_afk_status(self@.is_afk),
            !self@.is_afk ==> r@.timestamp_ms >= self@.state_start_ms,
    {
        let now_ms = crate::clock::now_utc_ms();
        let r = self.activity_event_at(now_ms);
        proof {
            assert(r@ == spec_activity_record(self@, now_ms as int));
        }
        r
    }
}

/// Idle round trip: going AFK and then resuming restores the active state,
/// with the state start reset to the resume time — not to where the earlier
/// active period began.
pub proof fn lemma_idle_round_trip(s: AfkStateView, idle_ms: int, resume_ms: int)
    ensures
        spec_idle_step(spec_idle_step(s, IdleEvent::Idle, idle_ms), IdleEvent::Resumed, resume_ms)
            == (AfkStateView {
            is_afk: false,
            state_start_ms: resume_ms,
            timeout_ms: s.timeout_ms,
        }),
{
}

/// For a fixed tracker state, the reported activity timestamp never moves
/// backwards as the clock advances.
pub proof fn lemma_activity_timestamp_monotonic(s: AfkStateView, now1_ms: int, now2_ms: int)
    requires
        now1_ms <= now2_ms,
    ensures
        spec_activity_timestamp(s, now1_ms) <= spec_activity_timestamp(s, now2_ms),
{
}

} // verus!
