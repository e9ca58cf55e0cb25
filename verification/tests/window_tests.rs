use aw_watcher_wayland::current_window::{
    state_array_contains, TrackerError, WindowEvent, WindowState,
};

#[test]
fn created_windows_get_placeholder_fields() {
    let mut ws = WindowState::new();
    ws.on_window_created(1).unwrap();
    let w = ws.all_windows.get(&1).unwrap();
    assert_eq!(w.title, "unknown");
    assert_eq!(w.appid, "unknown");
}

#[test]
fn window_set_tracks_creates_minus_closes() {
    let mut ws = WindowState::new();
    ws.on_window_created(1).unwrap();
    ws.on_window_created(2).unwrap();
    ws.on_window_created(3).unwrap();
    ws.on_window_closed(2).unwrap();
    assert_eq!(ws.all_windows.len(), 2);
    assert!(ws.all_windows.contains_key(&1));
    assert!(!ws.all_windows.contains_key(&2));
    assert!(ws.all_windows.contains_key(&3));
}

#[test]
fn duplicate_create_is_rejected_and_changes_nothing() {
    let mut ws = WindowState::new();
    ws.on_window_created(5).unwrap();
    ws.on_title_changed(5, "kept".to_string()).unwrap();
    assert_eq!(ws.on_window_created(5), Err(TrackerError::DuplicateWindow));
    assert_eq!(ws.all_windows.len(), 1);
    assert_eq!(ws.all_windows.get(&5).unwrap().title, "kept");
}

#[test]
fn property_events_for_unknown_handles_are_rejected() {
    let mut ws = WindowState::new();
    assert_eq!(
        ws.on_appid_changed(9, "x".to_string()),
        Err(TrackerError::UnknownWindow)
    );
    assert_eq!(
        ws.on_title_changed(9, "x".to_string()),
        Err(TrackerError::UnknownWindow)
    );
    assert_eq!(ws.on_state_changed(9, true), Err(TrackerError::UnknownWindow));
    assert_eq!(ws.on_window_closed(9), Err(TrackerError::UnknownWindow));
    assert!(ws.all_windows.is_empty());
    assert!(ws.current_window.is_none());
}

#[test]
fn focused_window_is_none_before_any_activation() {
    let mut ws = WindowState::new();
    ws.on_window_created(1).unwrap();
    assert!(ws.get_focused_window().is_none());
}

#[test]
fn focused_window_is_none_after_focused_window_closes() {
    // Regression: closing the focused window does not clear the focus
    // reference, but the dangling reference must read as "no focused
    // window", never as a stale window and never a panic.
    let mut ws = WindowState::new();
    ws.on_window_created(1).unwrap();
    ws.on_state_changed(1, true).unwrap();
    ws.on_window_closed(1).unwrap();
    assert_eq!(ws.current_window, Some(1));
    assert!(ws.get_focused_window().is_none());
}

#[test]
fn most_recent_activation_wins() {
    let mut ws = WindowState::new();
    ws.on_window_created(1).unwrap();
    ws.on_window_created(2).unwrap();
    ws.on_state_changed(1, true).unwrap();
    ws.on_state_changed(2, true).unwrap();
    assert_eq!(ws.current_window, Some(2));
    let focused = ws.get_focused_window().unwrap();
    assert_eq!(focused.title, "unknown");
}

#[test]
fn deactivation_style_event_changes_nothing() {
    let mut ws = WindowState::new();
    ws.on_window_created(1).unwrap();
    ws.on_state_changed(1, true).unwrap();
    ws.on_window_created(2).unwrap();
    ws.on_state_changed(2, false).unwrap();
    assert_eq!(ws.current_window, Some(1));
}

#[test]
fn apply_all_applies_events_in_delivery_order() {
    let mut ws = WindowState::new();
    let events = vec![
        WindowEvent::Created { handle: 1 },
        WindowEvent::TitleChanged { handle: 1, title: "first".to_string() },
        WindowEvent::TitleChanged { handle: 1, title: "second".to_string() },
        WindowEvent::StateChanged { handle: 1, activated: true },
    ];
    ws.apply_all(&events).unwrap();
    let focused = ws.get_focused_window().unwrap();
    assert_eq!(focused.title, "second");
}

#[test]
fn apply_all_stops_at_the_first_invalid_event() {
    let mut ws = WindowState::new();
    let events = vec![
        WindowEvent::Created { handle: 1 },
        WindowEvent::Closed { handle: 2 },
        WindowEvent::TitleChanged { handle: 1, title: "late".to_string() },
    ];
    assert_eq!(ws.apply_all(&events), Err(TrackerError::UnknownWindow));
    // The events before the invalid one were applied, the later ones not.
    assert!(ws.all_windows.contains_key(&1));
    assert_eq!(ws.all_windows.get(&1).unwrap().title, "unknown");
}

#[test]
fn state_array_scan_finds_the_code() {
    assert!(state_array_contains(&vec![0, 2, 3], 2));
    assert!(!state_array_contains(&vec![0, 3], 2));
    assert!(!state_array_contains(&vec![], 2));
}
