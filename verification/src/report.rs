//! The reporting loop's computation: the shared tracker pair, the atomic
//! snapshot it reads on every tick, and the records it turns into
//! heartbeats.
//!
//! The embedder wraps one [`WatcherState`] in a mutual-exclusion guard
//! shared between the dispatch loop and the reporting loop. Every read or
//! write happens through a method on the whole pair while the guard is
//! held, and never across a blocking wait or a network send.

use vstd::prelude::*;

use crate::current_window::{spec_focused_window, Window, WindowState, WindowStateView, WindowView};
use crate::idle::{
    spec_activity_record, ActivityRecord, ActivityRecordView, AfkState, AfkStateView,
};

verus! {

/// The reporting period, in milliseconds.
pub const HEARTBEAT_INTERVAL_MS: u64 = 5000;

/// The pulse tolerance handed to the sink with each heartbeat, sized to
/// cover one missed tick: the reporting interval plus one second of drift
/// margin, so minor timing drift neither splits nor wrongly coalesces the
/// sink's intervals.
pub fn pulse_tolerance_ms(interval_ms: u64) -> (r: u64)
    requires
        interval_ms <= u64::MAX - 1000,
    ensures
        r == interval_ms + 1000,
{
    interval_ms + 1000
}

/// A point-in-time focused-window record: the window's application id and
/// title, dated at the moment of the reading, with zero duration.
#[derive(Debug)]
pub struct WindowRecord {
    pub app: String,
    pub title: String,
    pub timestamp_ms: i64,
    pub duration_ms: i64,
}

/// Ghost model of a focused-window record.
pub struct WindowRecordView {
    pub app: Seq<char>,
    pub title: Seq<char>,
    pub timestamp_ms: int,
    pub duration_ms: int,
}

impl View for WindowRecord {
    type V = WindowRecordView;

    open spec fn view(&self) -> WindowRecordView {
        WindowRecordView {
            app: self.app@,
            title: self.title@,
            timestamp_ms: self.timestamp_ms as int,
            duration_ms: self.duration_ms as int,
        }
    }
}

/// The record describing window `w` as of time `now_ms`.
pub open spec fn spec_window_record(w: WindowView, now_ms: int) -> WindowRecordView {
    WindowRecordView { app: w.appid, title: w.title, timestamp_ms: now_ms, duration_ms: 0 }
}

/// The focused-window record for `window` dated at `now_ms`.
pub fn window_record_at(window: &Window, now_ms: i64) -> (r: WindowRecord)
    ensures
        r@ == spec_window_record(window@, now_ms as int),
{
    WindowRecord {
        app: window.appid.clone(),
        title: window.title.clone(),
        timestamp_ms: now_ms,
        duration_ms: 0,
    }
}

/// The focused-window record for `window` dated at the current clock
/// reading. The clock is outside the tracker's control, so the record is
/// pinned to some reading; its window fields and duration are fixed.
pub fn window_to_event(window: &Window) -> (r: WindowRecord)
    ensures
        exists|now_ms: int| r@ == spec_window_record(window@, now_ms),
        r@.app == window@.appid,
        r@.title == window@.title,
        r@.duration_ms == 0,
{
    let now_ms = crate::clock::now_utc_ms();
    let r = window_record_at(window, now_ms);
    proof {
        assert(r@ == spec_window_record(window@, now_ms as int));
    }
    r
}

/// The shared state of the watcher: the window tracker and the idle
/// tracker, mutated only by the dispatch loop and read only by the
/// reporting loop, both under the embedder's guard.
pub struct WatcherState {
    pub windows: WindowState,
    pub afk: AfkState,
}

/// One atomic reading of both trackers: the focused window's record, if one
/// is focused, and the activity status record.
#[derive(Debug)]
pub struct Snapshot {
    pub focused: Option<WindowRecord>,
    pub activity: ActivityRecord,
}

/// Ghost model of a snapshot.
pub struct SnapshotView {
    pub focused: Option<WindowRecordView>,
    pub activity: ActivityRecordView,
}

impl View for Snapshot {
    type V = SnapshotView;

    open spec fn view(&self) -> SnapshotView {
        SnapshotView {
            focused: match self.focused {
                Option::Some(ref f) => Option::Some(f@),
                Option::None => Option::None,
            },
            activity: self.activity@,
        }
    }
}

/// The snapshot of window state `w` and idle state `a` as of time
/// `now_ms`: both components are read from the same pair of states, under
/// the same hold of the guard.
pub open spec fn spec_snapshot(
    w: WindowStateView,
    a: AfkStateView,
    now_ms: int,
) -> SnapshotView {
    SnapshotView {
        focused: match spec_focused_window(w) {
            Option::Some(wv) => Option::Some(spec_window_record(wv, now_ms)),
            Option::None => Option::None,
        },
        activity: spec_activity_record(a, now_ms),
    }
}

impl WatcherState {
    /// A fresh watcher: no windows, no focus, active as of `now_ms`.
    pub fn new(timeout_ms: u32, now_ms: i64) -> (s: Self)
        ensures
            s.windows@ == crate::current_window::spec_empty_window_state(),
            s.afk@ == (AfkStateView {
                is_afk: false,
                state_start_ms: now_ms as int,
                timeout_ms: timeout_ms as int,
            }),
    {
        WatcherState { windows: WindowState::new(), afk: AfkState::new(timeout_ms, now_ms) }
    }

    /// Reads both trackers in one step, dated at `now_ms`.
    pub fn snapshot_at(&self, now_ms: i64) -> (r: Snapshot)
        ensures
            r@ == spec_snapshot(self.windows@, self.afk@, now_ms as int),
    {
        let focused = match self.windows.get_focused_window() {
            Some(w) => Some(window_record_at(&w, now_ms)),
            None => None,
        };
        Snapshot { focused, activity: self.afk.activity_event_at(now_ms) }
    }

    /// Reads both trackers in one step, dated at the current clock reading:
    /// whatever the clock reports, the two components of the result
    /// describe the same tracker pair at the same instant.
    pub fn snapshot(&self) -> (r: Snapshot)
        ensures
            exists|now_ms: int| r@ == spec_snapshot(self.windows@, self.afk@, now_ms),
    {
        let now_ms = crate::clock::now_utc_ms();
        let r = self.snapshot_at(now_ms);
        proof {
            assert(r@ == spec_snapshot(self.windows@, self.afk@, now_ms as int));
        }
        r
    }
}

/// A snapshot is internally consistent: whenever it carries a
/// focused-window record, the focus reference of the window state it was
/// read from is a key of that same state's window set, and the record
/// describes exactly the window under that key. A dangling focus reference
/// (the focused window was closed) never surfaces in a snapshot.
pub proof fn lemma_snapshot_focus_consistent(w: WindowStateView, a: AfkStateView, now_ms: int)
    ensures
        spec_snapshot(w, a, now_ms).focused matches Some(f) ==> (w.focused matches Some(h)
            && w.windows.dom().contains(h) && f == spec_window_record(w.windows[h], now_ms)),
{
}

} // verus!
