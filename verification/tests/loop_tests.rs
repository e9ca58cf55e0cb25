use aw_watcher_wayland::current_window::WindowEvent;
use aw_watcher_wayland::dispatch::{dispatch_decision, DispatchAction, TransportEvent};
use aw_watcher_wayland::idle::IdleEvent;
use aw_watcher_wayland::report::{
    pulse_tolerance_ms, window_record_at, window_to_event, WatcherState, HEARTBEAT_INTERVAL_MS,
};

#[test]
fn dispatch_decisions_follow_the_transport() {
    assert_eq!(
        dispatch_decision(TransportEvent::BufferedEventsPending),
        DispatchAction::DrainEvents
    );
    assert_eq!(dispatch_decision(TransportEvent::PollReady), DispatchAction::AttemptRead);
    assert_eq!(dispatch_decision(TransportEvent::PollInterrupted), DispatchAction::RetryWait);
    assert_eq!(dispatch_decision(TransportEvent::PollFailed), DispatchAction::Abort);
    assert_eq!(dispatch_decision(TransportEvent::ReadComplete), DispatchAction::DrainEvents);
    assert_eq!(dispatch_decision(TransportEvent::ReadWouldBlock), DispatchAction::Restart);
    assert_eq!(dispatch_decision(TransportEvent::ReadFailed), DispatchAction::Abort);
}

#[test]
fn pulse_tolerance_covers_one_missed_tick() {
    assert_eq!(pulse_tolerance_ms(HEARTBEAT_INTERVAL_MS), 6000);
    assert_eq!(pulse_tolerance_ms(0), 1000);
}

#[test]
fn window_records_copy_the_window_fields() {
    let mut ws = WatcherState::new(120000, 0);
    ws.windows.on_window_created(1).unwrap();
    ws.windows.on_appid_changed(1, "Editor".to_string()).unwrap();
    ws.windows.on_title_changed(1, "notes.txt".to_string()).unwrap();
    let w = ws.windows.all_windows.get(&1).unwrap();
    let dated = window_record_at(w, 777);
    assert_eq!(dated.app, "Editor");
    assert_eq!(dated.title, "notes.txt");
    assert_eq!(dated.timestamp_ms, 777);
    assert_eq!(dated.duration_ms, 0);
    let now_dated = window_to_event(w);
    assert_eq!(now_dated.app, "Editor");
    assert_eq!(now_dated.title, "notes.txt");
    assert_eq!(now_dated.duration_ms, 0);
}

#[test]
fn snapshot_reads_both_trackers_at_one_instant() {
    let mut st = WatcherState::new(120000, 0);
    st.windows.on_window_created(4).unwrap();
    st.windows.on_appid_changed(4, "Terminal".to_string()).unwrap();
    st.windows.on_state_changed(4, true).unwrap();
    st.afk.on_idle(50);
    let snap = st.snapshot_at(1_000);
    let focused = snap.focused.unwrap();
    assert_eq!(focused.app, "Terminal");
    assert_eq!(focused.timestamp_ms, 1_000);
    assert_eq!(snap.activity.status, "afk");
    assert_eq!(snap.activity.timestamp_ms, 1_000);
}

#[test]
fn snapshots_never_surface_a_dangling_focus() {
    // Alternating dispatch-side writes and report-side snapshots: each
    // snapshot is consistent with the window set visible at the same
    // instant, even though closing the focused window leaves the focus
    // reference behind.
    let mut st = WatcherState::new(120000, 0);
    st.windows
        .apply_all(&vec![
            WindowEvent::Created { handle: 1 },
            WindowEvent::AppIdChanged { handle: 1, appid: "Browser".to_string() },
            WindowEvent::StateChanged { handle: 1, activated: true },
        ])
        .unwrap();
    st.afk.apply(IdleEvent::Resumed, 10);

    let snap1 = st.snapshot_at(100);
    assert_eq!(snap1.focused.unwrap().app, "Browser");

    st.windows.apply_all(&vec![WindowEvent::Closed { handle: 1 }]).unwrap();
    let snap2 = st.snapshot_at(200);
    assert!(st.windows.current_window.is_some());
    assert!(snap2.focused.is_none());

    st.windows
        .apply_all(&vec![
            WindowEvent::Created { handle: 2 },
            WindowEvent::StateChanged { handle: 2, activated: true },
        ])
        .unwrap();
    let snap3 = st.snapshot_at(300);
    assert_eq!(snap3.focused.unwrap().title, "unknown");
}

#[test]
fn end_to_end_focus_then_idle_then_resume() {
    let t0: i64 = 1_700_000_000_000;
    let mut st = WatcherState::new(120000, t0);
    st.windows.on_window_created(7).unwrap();
    assert_eq!(st.windows.all_windows.get(&7).unwrap().appid, "unknown");
    st.windows.on_appid_changed(7, "Firefox".to_string()).unwrap();
    st.windows.on_title_changed(7, "Example".to_string()).unwrap();
    st.windows.on_state_changed(7, true).unwrap();

    let focused = st.windows.get_focused_window().unwrap();
    assert_eq!(focused.title, "Example");
    assert_eq!(focused.appid, "Firefox");

    st.afk.on_idle(t0 + 1_000);
    let record = st.afk.activity_event_at(t0 + 2_000);
    assert_eq!(record.status, "afk");
    assert_eq!(record.timestamp_ms, t0 + 2_000);

    st.afk.on_resumed(t0 + 3_000);
    let record = st.afk.activity_event_at(t0 + 4_000);
    assert_eq!(record.status, "not-afk");
    // now - timeout is far before the resume time, so the record is dated
    // at the resume time.
    assert_eq!(record.timestamp_ms, t0 + 3_000);
    let record = st.afk.activity_event_at(t0 + 300_000);
    assert_eq!(record.timestamp_ms, t0 + 300_000 - 120_000);
}
