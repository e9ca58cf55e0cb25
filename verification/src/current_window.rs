//! Tracks the set of open toplevel windows and which one is focused.
//!
//! Window handles are the opaque per-object identifiers assigned by the
//! transport, carried here as plain `u64` values; the transport guarantees a
//! handle is unique for the window's lifetime and never reused while the
//! window is alive.

use std::collections::HashMap;
use vstd::prelude::*;
use vstd::string::StringExecFns;

verus! {

broadcast use vstd::std_specs::hash::group_hash_axioms;

/// A tracked toplevel window: its title and application id.
#[derive(Debug)]
pub struct Window {
    pub title: String,
    pub appid: String,
}

/// Ghost model of a window: the character sequences of its two fields.
pub struct WindowView {
    pub title: Seq<char>,
    pub appid: Seq<char>,
}

impl View for Window {
    type V = WindowView;

    open spec fn view(&self) -> WindowView {
        WindowView { title: self.title@, appid: self.appid@ }
    }
}

impl Clone for Window {
    fn clone(&self) -> (r: Self)
        ensures
            r == *self,
    {
        Window { title: self.title.clone(), appid: self.appid.clone() }
    }
}

/// The window tracker: every announced, not-yet-closed window, keyed by its
/// handle, together with the handle most recently asserted as focused.
///
/// Closing the focused window deliberately leaves `current_window` in place:
/// the event model only signals positive activation, so a dangling focus
/// reference is resolved at read time by `get_focused_window`.
pub struct WindowState {
    pub current_window: Option<u64>,
    pub all_windows: HashMap<u64, Window>,
}

/// Ghost model of the tracker: the focused handle, if any, and the mapping
/// from live handles to window models.
pub struct WindowStateView {
    pub focused: Option<u64>,
    pub windows: Map<u64, WindowView>,
}

impl View for WindowState {
    type V = WindowStateView;

    open spec fn view(&self) -> WindowStateView {
        WindowStateView {
            focused: self.current_window,
            windows: self.all_windows@.map_values(|w: Window| w@),
        }
    }
}

/// Why a window event was rejected: the transport and the tracker have
/// desynchronized, which correct protocol sequencing never produces.
/// Callers treat this as a contract violation, not a recoverable error.
#[derive(Debug, Clone, Copy, PartialEq, Eq, Structural)]
pub enum TrackerError {
    /// A property, activation or close event named a handle that is not
    /// tracked (never announced, or already closed).
    UnknownWindow,
    /// A creation event named a handle that is already tracked, although
    /// handles are never reused while a window is alive.
    DuplicateWindow,
}

/// A decoded window-lifecycle event, in the transport's delivery order.
#[derive(Debug)]
pub enum WindowEvent {
    /// A new toplevel window was announced under a fresh handle.
    Created { handle: u64 },
    /// The application id of a tracked window changed.
    AppIdChanged { handle: u64, appid: String },
    /// The title of a tracked window changed.
    TitleChanged { handle: u64, title: String },
    /// The window's state array arrived; `activated` says whether it marks
    /// the window as the newly focused one.
    StateChanged { handle: u64, activated: bool },
    /// The window was closed; its handle is never seen again.
    Closed { handle: u64 },
}

/// Ghost model of a window-lifecycle event.
pub enum WindowEventView {
    Created { handle: u64 },
    AppIdChanged { handle: u64, appid: Seq<char> },
    TitleChanged { handle: u64, title: Seq<char> },
    StateChanged { handle: u64, activated: bool },
    Closed { handle: u64 },
}

impl View for WindowEvent {
    type V = WindowEventView;

    open spec fn view(&self) -> WindowEventView {
        match *self {
            WindowEvent::Created { handle } => WindowEventView::Created { handle },
            WindowEvent::AppIdChanged { handle, ref appid } => WindowEventView::AppIdChanged {
                handle,
                appid: appid@,
            },
            WindowEvent::TitleChanged { handle, ref title } => WindowEventView::TitleChanged {
                handle,
                title: title@,
            },
            WindowEvent::StateChanged { handle, activated } => WindowEventView::StateChanged {
                handle,
                activated,
            },
            WindowEvent::Closed { handle } => WindowEventView::Closed { handle },
        }
    }
}

/// The placeholder contents a window carries from its announcement until the
/// first property events arrive.
pub open spec fn spec_placeholder_window() -> WindowView {
    WindowView { title: "unknown"@, appid: "unknown"@ }
}

/// Whether the transport kept its sequencing contract for this event in state
/// `s`: creation only under a fresh handle, everything else only for a
/// tracked handle.
pub open spec fn spec_window_event_valid(s: WindowStateView, e: WindowEventView) -> bool {
    match e {
        WindowEventView::Created { handle } => !s.windows.dom().contains(handle),
        WindowEventView::AppIdChanged { handle, .. } => s.windows.dom().contains(handle),
        WindowEventView::TitleChanged { handle, .. } => s.windows.dom().contains(handle),
        WindowEventView::StateChanged { handle, .. } => s.windows.dom().contains(handle),
        WindowEventView::Closed { handle } => s.windows.dom().contains(handle),
    }
}

/// The error reported for an event that found the tracker out of sync.
pub open spec fn spec_window_event_error(e: WindowEventView) -> TrackerError {
    match e {
        WindowEventView::Created { .. } => TrackerError::DuplicateWindow,
        _ => TrackerError::UnknownWindow,
    }
}

/// The tracker state after one valid event: creation inserts a placeholder
/// window, property events rewrite one field, activation moves the focus to
/// the handle (a later activation always wins), closing removes the window
/// but deliberately leaves the focus reference alone.
pub open spec fn spec_window_step(s: WindowStateView, e: WindowEventView) -> WindowStateView
    recommends
        spec_window_event_valid(s, e),
{
    match e {
        WindowEventView::Created { handle } => WindowStateView {
            focused: s.focused,
            windows: s.windows.insert(handle, spec_placeholder_window()),
        },
        WindowEventView::AppIdChanged { handle, appid } => WindowStateView {
            focused: s.focused,
            windows: s.windows.insert(
                handle,
                WindowView { title: s.windows[handle].title, appid },
            ),
        },
        WindowEventView::TitleChanged { handle, title } => WindowStateView {
            focused: s.focused,
            windows: s.windows.insert(
                handle,
                WindowView { title, appid: s.windows[handle].appid },
            ),
        },
        WindowEventView::StateChanged { handle, activated } => if activated {
            WindowStateView { focused: Option::Some(handle), windows: s.windows }
        } else {
            s
        },
        WindowEventView::Closed { handle } => WindowStateView {
            focused: s.focused,
            windows: s.windows.remove(handle),
        },
    }
}

/// The tracker state after a whole sequence of valid events, applied in the
/// transport's delivery order.
pub open spec fn spec_window_steps(s: WindowStateView, evs: Seq<WindowEventView>) -> WindowStateView
    decreases evs.len(),
{
    if evs.len() == 0 {
        s
    } else {
        spec_window_steps(spec_window_step(s, evs[0]), evs.drop_first())
    }
}

/// Whether every event of the sequence keeps the sequencing contract in the
/// state reached by its predecessors.
pub open spec fn spec_window_events_valid(s: WindowStateView, evs: Seq<WindowEventView>) -> bool
    decreases evs.len(),
{
    evs.len() == 0 || (spec_window_event_valid(s, evs[0]) && spec_window_events_valid(
        spec_window_step(s, evs[0]),
        evs.drop_first(),
    ))
}

/// How a replay of `evs` from state `s` ends when it hits a sequencing
/// violation: some event `evs[i]` is the first invalid one, every event
/// before it was applied in order, and the replay stopped there.
pub open spec fn spec_replay_stopped(
    s: WindowStateView,
    evs: Seq<WindowEventView>,
    stopped: WindowStateView,
    err: TrackerError,
) -> bool {
    exists|i: int|
        #![auto]
        0 <= i < evs.len() && spec_window_events_valid(s, evs.take(i)) && stopped
            == spec_window_steps(s, evs.take(i)) && !spec_window_event_valid(
            spec_window_steps(s, evs.take(i)),
            evs[i],
        ) && err == spec_window_event_error(evs[i])
}

proof fn lemma_window_steps_push(s: WindowStateView, evs: Seq<WindowEventView>, e: WindowEventView)
    ensures
        spec_window_steps(s, evs.push(e)) == spec_window_step(spec_window_steps(s, evs), e),
        spec_window_events_valid(s, evs.push(e)) <==> (spec_window_events_valid(s, evs)
            && spec_window_event_valid(spec_window_steps(s, evs), e)),
    decreases evs.len(),
{
    if evs.len() == 0 {
        assert(evs.push(e)[0] == e);
        assert(evs.push(e).drop_first() =~= Seq::<WindowEventView>::empty());
        assert(spec_window_steps(spec_window_step(s, e), Seq::<WindowEventView>::empty())
            == spec_window_step(s, e));
        assert(spec_window_events_valid(spec_window_step(s, e), Seq::<WindowEventView>::empty()));
        assert(spec_window_steps(s, evs) == s);
        assert(spec_window_events_valid(s, evs));
    } else {
        assert(evs.push(e)[0] == evs[0]);
        assert(evs.push(e).drop_first() =~= evs.drop_first().push(e));
        lemma_window_steps_push(spec_window_step(s, evs[0]), evs.drop_first(), e);
    }
}

/// Whether a window's state array, as the transport delivers it (one code
/// per byte), contains the given state code. Used to decode whether an
/// activation-state event marks its window as activated.
pub fn state_array_contains(state_bytes: &Vec<u8>, code: u8) -> (r: bool)
    ensures
        r == exists|i: int| 0 <= i < state_bytes@.len() && state_bytes@[i] == code,
{
    let n = state_bytes.len();
    let mut i: usize = 0;
    while i < n
        invariant
            n == state_bytes@.len(),
            i <= n,
            forall|j: int| 0 <= j < i ==> state_bytes@[j] != code,
        decreases n - i,
    {
        if state_bytes[i] == code {
            return true;
        }
        i += 1;
    }
    false
}

/// The state of a tracker that has seen no events.
pub open spec fn spec_empty_window_state() -> WindowStateView {
    WindowStateView { focused: Option::None, windows: Map::empty() }
}

/// The set of handles announced by the creation events of a sequence.
pub open spec fn spec_created_handles(evs: Seq<WindowEventView>) -> Set<u64> {
    Set::new(
        |h: u64|
            exists|i: int|
                0 <= i < evs.len() && (#[trigger] evs[i]) is Created && evs[i]->Created_handle
                    == h,
    )
}

/// The set of handles named by the close events of a sequence.
pub open spec fn spec_closed_handles(evs: Seq<WindowEventView>) -> Set<u64> {
    Set::new(
        |h: u64|
            exists|i: int|
                0 <= i < evs.len() && (#[trigger] evs[i]) is Closed && evs[i]->Closed_handle == h,
    )
}

/// Only creation and close events: the lifecycle subset of the event model.
pub open spec fn spec_lifecycle_only(evs: Seq<WindowEventView>) -> bool {
    forall|i: int| 0 <= i < evs.len() ==> ((#[trigger] evs[i]) is Created || evs[i] is Closed)
}

/// No two creation events announce the same handle: the transport never
/// reuses a handle.
pub open spec fn spec_handles_created_once(evs: Seq<WindowEventView>) -> bool {
    forall|i: int, j: int|
        #![trigger evs[i], evs[j]]
        0 <= i < j < evs.len() && evs[i] is Created && evs[j] is Created ==> evs[i]->Created_handle
            != evs[j]->Created_handle
}

proof fn lemma_lifecycle_dom_general(s: WindowStateView, evs: Seq<WindowEventView>)
    requires
        spec_lifecycle_only(evs),
        spec_handles_created_once(evs),
        spec_window_events_valid(s, evs),
        forall|h: u64| spec_created_handles(evs).contains(h) ==> !s.windows.dom().contains(h),
    ensures
        spec_window_steps(s, evs).windows.dom() =~= s.windows.dom().union(
            spec_created_handles(evs),
        ).difference(spec_closed_handles(evs)),
    decreases evs.len(),
{
    if evs.len() == 0 {
        assert(spec_created_handles(evs) =~= Set::<u64>::empty());
        assert(spec_closed_handles(evs) =~= Set::<u64>::empty());
    } else {
        let e = evs[0];
        let rest = evs.drop_first();
        let s1 = spec_window_step(s, e);
        assert forall|h: u64| spec_created_handles(rest).contains(h) implies spec_created_handles(
            evs,
        ).contains(h) by {
            let i = choose|i: int|
                0 <= i < rest.len() && (#[trigger] rest[i]) is Created && rest[i]->Created_handle
                    == h;
            assert(evs[i + 1] == rest[i]);
        }
        assert(spec_lifecycle_only(rest)) by {
            assert forall|i: int| 0 <= i < rest.len() implies ((#[trigger] rest[i]) is Created
                || rest[i] is Closed) by {
                assert(rest[i] == evs[i + 1]);
            }
        }
        assert(spec_handles_created_once(rest)) by {
            assert forall|i: int, j: int|
                #![trigger rest[i], rest[j]]
                0 <= i < j < rest.len() && rest[i] is Created
                    && rest[j] is Created implies rest[i]->Created_handle
                != rest[j]->Created_handle by {
                assert(rest[i] == evs[i + 1] && rest[j] == evs[j + 1]);
            }
        }
        assert forall|h: u64| spec_created_handles(rest).contains(h) implies !s1.windows.dom().contains(
            h,
        ) by {
            let i = choose|i: int|
                0 <= i < rest.len() && (#[trigger] rest[i]) is Created && rest[i]->Created_handle
                    == h;
            assert(evs[i + 1] == rest[i]);
            if e is Created {
                assert(evs[0] is Created && evs[i + 1] is Created);
                assert(e->Created_handle != h);
            }
        }
        lemma_lifecycle_dom_general(s1, rest);
        assert forall|h: u64|
            spec_window_steps(s, evs).windows.dom().contains(h) <==> s.windows.dom().union(
                spec_created_handles(evs),
            ).difference(spec_closed_handles(evs)).contains(h) by {
            lemma_lifecycle_dom_member(s, evs, h);
        }
    }
}

proof fn lemma_lifecycle_dom_member(s: WindowStateView, evs: Seq<WindowEventView>, h: u64)
    requires
        evs.len() > 0,
        spec_lifecycle_only(evs),
        spec_handles_created_once(evs),
        spec_window_events_valid(s, evs),
        forall|h2: u64| spec_created_handles(evs).contains(h2) ==> !s.windows.dom().contains(h2),
        spec_window_steps(
            spec_window_step(s, evs[0]),
            evs.drop_first(),
        ).windows.dom() =~= spec_window_step(s, evs[0]).windows.dom().union(
            spec_created_handles(evs.drop_first()),
        ).difference(spec_closed_handles(evs.drop_first())),
    ensures
        spec_window_steps(s, evs).windows.dom().contains(h) <==> s.windows.dom().union(
            spec_created_handles(evs),
        ).difference(spec_closed_handles(evs)).contains(h),
{
    let e = evs[0];
    let rest = evs.drop_first();
    let s1 = spec_window_step(s, e);
    assert(spec_window_steps(s, evs) == spec_window_steps(s1, rest));
    // Membership of h in the created and closed sets of `evs`, split between
    // the head event and the rest.
    let created_in_rest = spec_created_handles(rest).contains(h);
    let closed_in_rest = spec_closed_handles(rest).contains(h);
    assert(created_in_rest ==> spec_created_handles(evs).contains(h)) by {
        if created_in_rest {
            let i = choose|i: int|
                0 <= i < rest.len() && (#[trigger] rest[i]) is Created && rest[i]->Created_handle
                    == h;
            assert(evs[i + 1] == rest[i]);
        }
    }
    assert(closed_in_rest ==> spec_closed_handles(evs).contains(h)) by {
        if closed_in_rest {
            let i = choose|i: int|
                0 <= i < rest.len() && (#[trigger] rest[i]) is Closed && rest[i]->Closed_handle
                    == h;
            assert(evs[i + 1] == rest[i]);
        }
    }
    assert(spec_created_handles(evs).contains(h) ==> (created_in_rest || (e is Created
        && e->Created_handle == h))) by {
        if spec_created_handles(evs).contains(h) {
            let i = choose|i: int|
                0 <= i < evs.len() && (#[trigger] evs[i]) is Created && evs[i]->Created_handle
                    == h;
            if i > 0 {
                assert(rest[i - 1] == evs[i]);
            }
        }
    }
    assert(spec_closed_handles(evs).contains(h) ==> (closed_in_rest || (e is Closed
        && e->Closed_handle == h))) by {
        if spec_closed_handles(evs).contains(h) {
            let i = choose|i: int|
                0 <= i < evs.len() && (#[trigger] evs[i]) is Closed && evs[i]->Closed_handle == h;
            if i > 0 {
                assert(rest[i - 1] == evs[i]);
            }
        }
    }
    if e is Created {
        assert(spec_created_handles(evs).contains(e->Created_handle));
        if e->Created_handle == h {
            // A created handle is fresh, and `spec_handles_created_once`
            // keeps it out of the later creations; it may be closed later.
            assert(!created_in_rest) by {
                if created_in_rest {
                    let i = choose|i: int|
                        0 <= i < rest.len() && (#[trigger] rest[i]) is Created
                            && rest[i]->Created_handle == h;
                    assert(evs[i + 1] == rest[i]);
                    assert(evs[0] is Created && evs[i + 1] is Created);
                }
            }
        }
    } else {
        assert(e is Closed);
        assert(spec_closed_handles(evs).contains(e->Closed_handle));
        if e->Closed_handle == h {
            // A handle closed by the head event was tracked in `s`, so the
            // freshness hypothesis keeps it out of every later creation.
            assert(s.windows.dom().contains(h));
            assert(!created_in_rest);
        }
    }
}

/// The window set tracks the lifecycle events exactly: after any valid
/// sequence of creations and closes applied to an empty tracker, the set of
/// tracked handles is the set of created handles minus the closed ones.
pub proof fn lemma_window_set_tracks_lifecycle(evs: Seq<WindowEventView>)
    requires
        spec_lifecycle_only(evs),
        spec_handles_created_once(evs),
        spec_window_events_valid(spec_empty_window_state(), evs),
    ensures
        spec_window_steps(spec_empty_window_state(), evs).windows.dom()
            =~= spec_created_handles(evs).difference(spec_closed_handles(evs)),
{
    lemma_lifecycle_dom_general(spec_empty_window_state(), evs);
    assert(spec_empty_window_state().windows.dom().union(spec_created_handles(evs))
        =~= spec_created_handles(evs));
}

/// The focused window of a tracker state: `None` when no focus was ever
/// asserted, and also when the focused handle has since been closed.
pub open spec fn spec_focused_window(s: WindowStateView) -> Option<WindowView> {
    match s.focused {
        Option::None => Option::None,
        Option::Some(h) => if s.windows.dom().contains(h) {
            Option::Some(s.windows[h])
        } else {
            Option::None
        },
    }
}

impl WindowState {
    /// An empty tracker: no windows, no focus.
    pub fn new() -> (s: Self)
        ensures
            s@ == spec_empty_window_state(),
    {
        let s = WindowState { current_window: None, all_windows: HashMap::new() };
        proof {
            assert(s@.windows =~= Map::<u64, WindowView>::empty());
        }
        s
    }

    /// A copy of the focused window, or `None` if focus is unset or the
    /// focused handle is no longer tracked (it may have been closed since
    /// focus was asserted).
    pub fn get_focused_window(&self) -> (r: Option<Window>)
        ensures
            match r {
                Option::Some(w) => spec_focused_window(self@) == Option::Some(w@),
                Option::None => spec_focused_window(self@) is None,
            },
    {
        let current_window_id = match &self.current_window {
            Some(id) => id,
            None => {
                return None;
            },
        };
        match self.all_windows.get(current_window_id) {
            Some(w) => Some(w.clone()),
            None => None,
        }
    }

    /// Starts tracking a freshly announced window under `handle`, with
    /// placeholder title and application id.
    pub fn on_window_created(&mut self, handle: u64) -> (r: Result<(), TrackerError>)
        ensures
            match r {
                Result::Ok(()) => !old(self)@.windows.dom().contains(handle) && final(self)@
                    == spec_window_step(old(self)@, WindowEventView::Created { handle }),
                Result::Err(e) => e == TrackerError::DuplicateWindow && old(
                    self,
                )@.windows.dom().contains(handle) && final(self)@ == old(self)@,
            },
    {
        if self.all_windows.contains_key(&handle) {
            return Err(TrackerError::DuplicateWindow);
        }
        let window = Window {
            title: String::from_str("unknown"),
            appid: String::from_str("unknown"),
        };
        self.all_windows.insert(handle, window);
        proof {
            assert(self@.windows =~= old(self)@.windows.insert(handle, spec_placeholder_window()));
        }
        Ok(())
    }

    /// Rewrites the application id of the tracked window `handle`.
    pub fn on_appid_changed(&mut self, handle: u64, new_appid: String) -> (r: Result<
        (),
        TrackerError,
    >)
        ensures
            match r {
                Result::Ok(()) => old(self)@.windows.dom().contains(handle) && final(self)@
                    == spec_window_step(
                    old(self)@,
                    WindowEventView::AppIdChanged { handle, appid: new_appid@ },
                ),
                Result::Err(e) => e == TrackerError::UnknownWindow && !old(
                    self,
                )@.windows.dom().contains(handle) && final(self)@ == old(self)@,
            },
    {
        let title = match self.all_windows.get(&handle) {
            Some(w) => w.title.clone(),
            None => {
                return Err(TrackerError::UnknownWindow);
            },
        };
        self.all_windows.insert(handle, Window { title, appid: new_appid });
        proof {
            assert(self@.windows =~= old(self)@.windows.insert(
                handle,
                WindowView { title: old(self)@.windows[handle].title, appid: new_appid@ },
            ));
        }
        Ok(())
    }

    /// Rewrites the title of the tracked window `handle`.
    pub fn on_title_changed(&mut self, handle: u64, new_title: String) -> (r: Result<
        (),
        TrackerError,
    >)
        ensures
            match r {
                Result::Ok(()) => old(self)@.windows.dom().contains(handle) && final(self)@
                    == spec_window_step(
                    old(self)@,
                    WindowEventView::TitleChanged { handle, title: new_title@ },
                ),
                Result::Err(e) => e == TrackerError::UnknownWindow && !old(
                    self,
                )@.windows.dom().contains(handle) && final(self)@ == old(self)@,
            },
    {
        let appid = match self.all_windows.get(&handle) {
            Some(w) => w.appid.clone(),
            None => {
                return Err(TrackerError::UnknownWindow);
            },
        };
        self.all_windows.insert(handle, Window { title: new_title, appid });
        proof {
            assert(self@.windows =~= old(self)@.windows.insert(
                handle,
                WindowView { title: new_title@, appid: old(self)@.windows[handle].appid },
            ));
        }
        Ok(())
    }

    /// Applies an activation-state event for the tracked window `handle`:
    /// when `activated` is set, `handle` becomes the focused window (at most
    /// one window is focused, the most recent activation wins); a
    /// deactivation of any window changes nothing, since the event model
    /// only signals positive activation of the newly focused window.
    pub fn on_state_changed(&mut self, handle: u64, activated: bool) -> (r: Result<
        (),
        TrackerError,
    >)
        ensures
            match r {
                Result::Ok(()) => old(self)@.windows.dom().contains(handle) && final(self)@
                    == spec_window_step(
                    old(self)@,
                    WindowEventView::StateChanged { handle, activated },
                ),
                Result::Err(e) => e == TrackerError::UnknownWindow && !old(
                    self,
                )@.windows.dom().contains(handle) && final(self)@ == old(self)@,
            },
    {
        if !self.all_windows.contains_key(&handle) {
            return Err(TrackerError::UnknownWindow);
        }
        if activated {
            self.current_window = Some(handle);
        }
        Ok(())
    }

    /// Stops tracking the window `handle`. The focus reference is left in
    /// place even when the closed window was focused: `get_focused_window`
    /// resolves such a dangling reference to `None` at read time.
    pub fn on_window_closed(&mut self, handle: u64) -> (r: Result<(), TrackerError>)
        ensures
            match r {
                Result::Ok(()) => old(self)@.windows.dom().contains(handle) && final(self)@
                    == spec_window_step(old(self)@, WindowEventView::Closed { handle }),
                Result::Err(e) => e == TrackerError::UnknownWindow && !old(
                    self,
                )@.windows.dom().contains(handle) && final(self)@ == old(self)@,
            },
    {
        match self.all_windows.remove(&handle) {
            Some(_) => {
                proof {
                    assert(self@.windows =~= old(self)@.windows.remove(handle));
                }
                Ok(())
            },
            None => {
                proof {
                    assert(self.all_windows@ =~= old(self).all_windows@);
                    assert(self@.windows =~= old(self)@.windows);
                }
                Err(TrackerError::UnknownWindow)
            },
        }
    }

    /// Applies one decoded event, dispatching on its kind. On success the
    /// tracker advances by exactly one transition step; otherwise it is
    /// unchanged and the error names the sequencing violation.
    pub fn apply(&mut self, event: &WindowEvent) -> (r: Result<(), TrackerError>)
        ensures
            match r {
                Result::Ok(()) => spec_window_event_valid(old(self)@, event@) && final(self)@
                    == spec_window_step(old(self)@, event@),
                Result::Err(e) => !spec_window_event_valid(old(self)@, event@) && e
                    == spec_window_event_error(event@) && final(self)@ == old(self)@,
            },
    {
        match event {
            WindowEvent::Created { handle } => self.on_window_created(*handle),
            WindowEvent::AppIdChanged { handle, appid } => self.on_appid_changed(
                *handle,
                appid.clone(),
            ),
            WindowEvent::TitleChanged { handle, title } => self.on_title_changed(
                *handle,
                title.clone(),
            ),
            WindowEvent::StateChanged { handle, activated } => self.on_state_changed(
                *handle,
                *activated,
            ),
            WindowEvent::Closed { handle } => self.on_window_closed(*handle),
        }
    }

    /// Drains one batch of decoded events into the tracker, in exactly the
    /// order the transport delivered them. On the first sequencing violation
    /// the replay stops: the events before it have been applied, the invalid
    /// one and everything after it have not.
    pub fn apply_all(&mut self, events: &Vec<WindowEvent>) -> (r: Result<(), TrackerError>)
        ensures
            match r {
                Result::Ok(()) => spec_window_events_valid(
                    old(self)@,
                    events@.map_values(|e: WindowEvent| e@),
                ) && final(self)@ == spec_window_steps(
                    old(self)@,
                    events@.map_values(|e: WindowEvent| e@),
                ),
                Result::Err(err) => spec_replay_stopped(
                    old(self)@,
                    events@.map_values(|e: WindowEvent| e@),
                    final(self)@,
                    err,
                ),
            },
    {
        let ghost evs = events@.map_values(|e: WindowEvent| e@);
        let n = events.len();
        let mut i: usize = 0;
        while i < n
            invariant
                n == events.len(),
                i <= n,
                evs == events@.map_values(|e: WindowEvent| e@),
                evs.len() == n,
                spec_window_events_valid(old(self)@, evs.take(i as int)),
                self@ == spec_window_steps(old(self)@, evs.take(i as int)),
            decreases n - i,
        {
            let r = self.apply(&events[i]);
            proof {
                assert(evs.take(i as int).push(evs[i as int]) =~= evs.take(i as int + 1));
                lemma_window_steps_push(old(self)@, evs.take(i as int), evs[i as int]);
            }
            match r {
                Ok(()) => {},
                Err(err) => {
                    proof {
                        assert(0 <= (i as int) < evs.len() && spec_window_events_valid(
                            old(self)@,
                            evs.take(i as int),
                        ) && self@ == spec_window_steps(old(self)@, evs.take(i as int))
                            && !spec_window_event_valid(
                            spec_window_steps(old(self)@, evs.take(i as int)),
                            evs[i as int],
                        ) && err == spec_window_event_error(evs[i as int]));
                    }
                    return Err(err);
                },
            }
            i += 1;
        }
        proof {
            assert(evs.take(n as int) =~= evs);
        }
        Ok(())
    }
}

} // verus!
