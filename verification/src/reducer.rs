//! The state reducer: the one place that mutates the authoritative state.
//! `spec_apply` is the mathematical transition function; the executable
//! `apply` methods are proved to implement it exactly and to preserve the
//! state invariant.

use vstd::prelude::*;

use crate::event::{event_valid, Event, WindowLayoutChange};
use crate::model::{
    lemma_win_idx_unique, lemma_ws_idx_unique, one_active_per_output, opt_chars_clone,
    opt_chars_eq, state_wf, win_has_id, win_idx_of, window_ids_unique,
    windows_reference_workspaces, workspace_ids_unique, ws_find, ws_has_id, ws_idx_of, ws_views,
    ConfigState, EventStreamState, EventStreamStateV, KeyboardLayoutsV, OverviewState, Window,
    WindowsState, Workspace, WorkspaceV, WorkspacesState,
};

verus! {

/// Activation: on the output of the workspace named by `id`, exactly that
/// workspace becomes active; when the activation carries focus, that
/// workspace is the only focused one anywhere.
pub open spec fn spec_activate(ws: Seq<WorkspaceV>, id: u64, focused: bool) -> Seq<WorkspaceV> {
    let target = ws_find(ws, id);
    ws.map_values(
        |w: WorkspaceV|
            WorkspaceV {
                is_active: if w.output == target.output {
                    w.id == id
                } else {
                    w.is_active
                },
                is_focused: if focused {
                    w.id == id
                } else {
                    w.is_focused
                },
                ..w
            },
    )
}

/// Urgency change of one workspace.
pub open spec fn spec_ws_urgency(ws: Seq<WorkspaceV>, id: u64, urgent: bool) -> Seq<WorkspaceV> {
    ws.update(ws_idx_of(ws, id), WorkspaceV { is_urgent: urgent, ..ws_find(ws, id) })
}

/// Active-window change of one workspace.
pub open spec fn spec_ws_active_window(
    ws: Seq<WorkspaceV>,
    id: u64,
    active_window_id: Option<u64>,
) -> Seq<WorkspaceV> {
    ws.update(ws_idx_of(ws, id), WorkspaceV { active_window_id, ..ws_find(ws, id) })
}

impl WorkspacesState {
    /// The position of the workspace with the given id, if any.
    pub fn find_index(&self, id: u64) -> (r: Option<usize>)
        ensures
            match r {
                Some(i) => i < self@.len() && self@[i as int].id == id,
                None => !ws_has_id(self@, id),
            },
    {
        let mut i: usize = 0;
        while i < self.workspaces.len()
            invariant
                0 <= i <= self.workspaces.len(),
                self@.len() == self.workspaces.len(),
                forall|k: int| 0 <= k < i ==> self@[k].id != id,
            decreases self.workspaces.len() - i,
        {
            if self.workspaces[i].id == id {
                return Some(i);
            }
            i += 1;
        }
        None
    }

    /// Applies a workspace-activated change.
    pub fn activate(&mut self, id: u64, focused: bool)
        requires
            workspace_ids_unique(old(self)@),
            ws_has_id(old(self)@, id),
        ensures
            final(self)@ == spec_activate(old(self)@, id, focused),
    {
        let ghost ws0 = self@;
        let idx = match self.find_index(id) {
            Some(i) => i,
            None => {
                proof {
                    assert(false);
                }
                0
            },
        };
        proof {
            lemma_ws_idx_unique(ws0, id, idx as int);
        }
        let target_output = opt_chars_clone(&self.workspaces[idx].output);
        let ghost target = ws_find(ws0, id);
        let mut out: Vec<Workspace> = Vec::new();
        let mut i: usize = 0;
        while i < self.workspaces.len()
            invariant
                0 <= i <= self.workspaces.len(),
                ws0 == self@,
                ws0.len() == self.workspaces.len(),
                out@.len() == i,
                target == ws_find(ws0, id),
                (match (&target_output, target.output) {
                    (Some(a), Some(b)) => a@ == b,
                    (None, None) => true,
                    _ => false,
                }),
                forall|k: int| 0 <= k < i ==> #[trigger] out@[k]@ == spec_activate(ws0, id, focused)[k],
            decreases self.workspaces.len() - i,
        {
            let w = &self.workspaces[i];
            let new_active = if opt_chars_eq(&w.output, &target_output) {
                w.id == id
            } else {
                w.is_active
            };
            let new_focused = if focused {
                w.id == id
            } else {
                w.is_focused
            };
            let neww = Workspace {
                id: w.id,
                idx: w.idx,
                output: opt_chars_clone(&w.output),
                is_active: new_active,
                is_focused: new_focused,
                is_urgent: w.is_urgent,
                active_window_id: w.active_window_id,
            };
            proof {
                assert(ws0[i as int] == self.workspaces@.map_values(|w: Workspace| w@)[i as int]);
                assert(neww@ == spec_activate(ws0, id, focused)[i as int]);
            }
            out.push(neww);
            i += 1;
        }
        self.workspaces = out;
        proof {
            assert(self@ =~= spec_activate(ws0, id, focused));
        }
    }

    /// Applies a workspace-urgency change.
    pub fn set_urgency(&mut self, id: u64, urgent: bool)
        requires
            workspace_ids_unique(old(self)@),
            ws_has_id(old(self)@, id),
        ensures
            final(self)@ == spec_ws_urgency(old(self)@, id, urgent),
    {
        let ghost ws0 = self@;
        let idx = match self.find_index(id) {
            Some(i) => i,
            None => {
                proof {
                    assert(false);
                }
                0
            },
        };
        proof {
            lemma_ws_idx_unique(ws0, id, idx as int);
        }
        self.workspaces[idx].is_urgent = urgent;
        proof {
            assert(self@ =~= spec_ws_urgency(ws0, id, urgent));
        }
    }

    /// Applies an active-window change of one workspace.
    pub fn set_active_window(&mut self, id: u64, active_window_id: Option<u64>)
        requires
            workspace_ids_unique(old(self)@),
            ws_has_id(old(self)@, id),
        ensures
            final(self)@ == spec_ws_active_window(old(self)@, id, active_window_id),
    {
        let ghost ws0 = self@;
        let idx = match self.find_index(id) {
            Some(i) => i,
            None => {
                proof {
                    assert(false);
                }
                0
            },
        };
        proof {
            lemma_ws_idx_unique(ws0, id, idx as int);
        }
        self.workspaces[idx].active_window_id = active_window_id;
        proof {
            assert(self@ =~= spec_ws_active_window(ws0, id, active_window_id));
        }
    }
}

/// Insert-or-replace of one window; a focused arrival steals focus from
/// every other window.
pub open spec fn spec_window_open(ws: Seq<Window>, w: Window) -> Seq<Window> {
    let base = if win_has_id(ws, w.id) {
        ws.update(win_idx_of(ws, w.id), w)
    } else {
        ws.push(w)
    };
    if w.is_focused {
        base.map_values(|x: Window| Window { is_focused: x.id == w.id, ..x })
    } else {
        base
    }
}

/// Removal of one window.
pub open spec fn spec_window_closed(ws: Seq<Window>, id: u64) -> Seq<Window> {
    ws.remove(win_idx_of(ws, id))
}

/// Focus change: the named window, if any, becomes the only focused one.
pub open spec fn spec_window_focus(ws: Seq<Window>, id: Option<u64>) -> Seq<Window> {
    ws.map_values(|x: Window| Window { is_focused: id == Some(x.id), ..x })
}

/// Urgency change of one window.
pub open spec fn spec_window_urgency(ws: Seq<Window>, id: u64, urgent: bool) -> Seq<Window> {
    ws.update(win_idx_of(ws, id), Window { is_urgent: urgent, ..ws[win_idx_of(ws, id)] })
}

/// One layout update.
pub open spec fn spec_window_layout_one(ws: Seq<Window>, c: WindowLayoutChange) -> Seq<Window> {
    ws.update(win_idx_of(ws, c.id), Window { layout: c.layout, ..ws[win_idx_of(ws, c.id)] })
}

/// A batch of layout updates, applied left to right.
pub open spec fn spec_window_layouts(ws: Seq<Window>, cs: Seq<WindowLayoutChange>) -> Seq<Window>
    decreases cs.len(),
{
    if cs.len() == 0 {
        ws
    } else {
        spec_window_layouts(spec_window_layout_one(ws, cs[0]), cs.skip(1))
    }
}

impl WindowsState {
    /// The position of the window with the given id, if any.
    pub fn find_index(&self, id: u64) -> (r: Option<usize>)
        ensures
            match r {
                Some(i) => i < self@.len() && self@[i as int].id == id,
                None => !win_has_id(self@, id),
            },
    {
        let mut i: usize = 0;
        while i < self.windows.len()
            invariant
                0 <= i <= self.windows.len(),
                forall|k: int| 0 <= k < i ==> self@[k].id != id,
            decreases self.windows.len() - i,
        {
            if self.windows[i].id == id {
                return Some(i);
            }
            i += 1;
        }
        None
    }

    /// Sets the focus flag of every window: focused exactly when its id is
    /// the given one.
    fn refocus(&mut self, id: Option<u64>)
        ensures
            final(self)@ == spec_window_focus(old(self)@, id),
    {
        let ghost ws0 = self@;
        let mut i: usize = 0;
        while i < self.windows.len()
            invariant
                0 <= i <= self.windows.len(),
                self@.len() == ws0.len(),
                forall|k: int| 0 <= k < i ==> self@[k] == spec_window_focus(ws0, id)[k],
                forall|k: int| i <= k < ws0.len() ==> self@[k] == ws0[k],
            decreases self.windows.len() - i,
        {
            let is_target = match id {
                Some(t) => self.windows[i].id == t,
                None => false,
            };
            self.windows[i].is_focused = is_target;
            i += 1;
        }
        proof {
            assert(self@ =~= spec_window_focus(ws0, id));
        }
    }

    /// Applies an insert-or-replace of one window.
    pub fn open_or_change(&mut self, w: Window)
        requires
            window_ids_unique(old(self)@),
        ensures
            final(self)@ == spec_window_open(old(self)@, w),
    {
        let ghost ws0 = self@;
        match self.find_index(w.id) {
            Some(i) => {
                proof {
                    lemma_win_idx_unique(ws0, w.id, i as int);
                }
                self.windows[i] = w;
            },
            None => {
                self.windows.push(w);
            },
        }
        let ghost base = self@;
        if w.is_focused {
            self.refocus(Some(w.id));
            proof {
                assert(spec_window_focus(base, Some(w.id)) =~= base.map_values(
                    |x: Window| Window { is_focused: x.id == w.id, ..x },
                ));
            }
        }
    }

    /// Applies the removal of one window.
    pub fn close(&mut self, id: u64)
        requires
            window_ids_unique(old(self)@),
            win_has_id(old(self)@, id),
        ensures
            final(self)@ == spec_window_closed(old(self)@, id),
    {
        let ghost ws0 = self@;
        let idx = match self.find_index(id) {
            Some(i) => i,
            None => {
                proof {
                    assert(false);
                }
                0
            },
        };
        proof {
            lemma_win_idx_unique(ws0, id, idx as int);
        }
        self.windows.remove(idx);
    }

    /// Applies a focus change.
    pub fn focus(&mut self, id: Option<u64>)
        ensures
            final(self)@ == spec_window_focus(old(self)@, id),
    {
        self.refocus(id);
    }

    /// Applies an urgency change of one window.
    pub fn set_urgency(&mut self, id: u64, urgent: bool)
        requires
            window_ids_unique(old(self)@),
            win_has_id(old(self)@, id),
        ensures
            final(self)@ == spec_window_urgency(old(self)@, id, urgent),
    {
        let ghost ws0 = self@;
        let idx = match self.find_index(id) {
            Some(i) => i,
            None => {
                proof {
                    assert(false);
                }
                0
            },
        };
        proof {
            lemma_win_idx_unique(ws0, id, idx as int);
        }
        self.windows[idx].is_urgent = urgent;
        proof {
            assert(self@ =~= spec_window_urgency(ws0, id, urgent));
        }
    }

    /// Applies one layout update.
    fn set_layout_one(&mut self, c: WindowLayoutChange)
        requires
            window_ids_unique(old(self)@),
            win_has_id(old(self)@, c.id),
        ensures
            final(self)@ == spec_window_layout_one(old(self)@, c),
    {
        let ghost ws0 = self@;
        let idx = match self.find_index(c.id) {
            Some(i) => i,
            None => {
                proof {
                    assert(false);
                }
                0
            },
        };
        proof {
            lemma_win_idx_unique(ws0, c.id, idx as int);
        }
        self.windows[idx].layout = c.layout;
        proof {
            assert(self@ =~= spec_window_layout_one(ws0, c));
        }
    }

    /// Applies a batch of layout updates, left to right.
    pub fn set_layouts(&mut self, changes: &Vec<WindowLayoutChange>)
        requires
            window_ids_unique(old(self)@),
            forall|i: int|
                0 <= i < changes@.len() ==> win_has_id(old(self)@, (#[trigger] changes@[i]).id),
        ensures
            final(self)@ == spec_window_layouts(old(self)@, changes@),
    {
        let ghost ws0 = self@;
        proof {
            assert(changes@.skip(0) =~= changes@);
        }
        let mut i: usize = 0;
        while i < changes.len()
            invariant
                0 <= i <= changes@.len(),
                spec_window_layouts(ws0, changes@) == spec_window_layouts(
                    self@,
                    changes@.skip(i as int),
                ),
                window_ids_unique(self@),
                forall|k: int|
                    0 <= k < changes@.len() ==> win_has_id(self@, (#[trigger] changes@[k]).id),
            decreases changes@.len() - i,
        {
            proof {
                lemma_layout_one_preserves(self@, changes@[i as int]);
                assert(changes@.skip(i as int)[0] == changes@[i as int]);
                assert(changes@.skip(i as int).skip(1) =~= changes@.skip(i as int + 1));
            }
            self.set_layout_one(changes[i]);
            i += 1;
        }
        proof {
            assert(changes@.skip(changes@.len() as int) =~= Seq::<WindowLayoutChange>::empty());
        }
    }
}

/// The transition function of the reducer: the state after applying one
/// event. Exactly the facet the event belongs to changes.
pub open spec fn spec_apply(s: EventStreamStateV, e: &Event) -> EventStreamStateV {
    match e {
        Event::WorkspacesChanged { workspaces } => EventStreamStateV {
            workspaces: ws_views(workspaces@),
            ..s
        },
        Event::WorkspaceActivated { id, focused } => EventStreamStateV {
            workspaces: spec_activate(s.workspaces, *id, *focused),
            ..s
        },
        Event::WorkspaceUrgencyChanged { id, urgent } => EventStreamStateV {
            workspaces: spec_ws_urgency(s.workspaces, *id, *urgent),
            ..s
        },
        Event::WorkspaceActiveWindowChanged { workspace_id, active_window_id } => EventStreamStateV {
            workspaces: spec_ws_active_window(s.workspaces, *workspace_id, *active_window_id),
            ..s
        },
        Event::WindowsChanged { windows } => EventStreamStateV { windows: windows@, ..s },
        Event::WindowOpenedOrChanged { window } => EventStreamStateV {
            windows: spec_window_open(s.windows, *window),
            ..s
        },
        Event::WindowClosed { id } => EventStreamStateV {
            windows: spec_window_closed(s.windows, *id),
            ..s
        },
        Event::WindowFocusChanged { id } => EventStreamStateV {
            windows: spec_window_focus(s.windows, *id),
            ..s
        },
        Event::WindowUrgencyChanged { id, urgent } => EventStreamStateV {
            windows: spec_window_urgency(s.windows, *id, *urgent),
            ..s
        },
        Event::WindowLayoutsChanged { changes } => EventStreamStateV {
            windows: spec_window_layouts(s.windows, changes@),
            ..s
        },
        Event::KeyboardLayoutsChanged { keyboard_layouts } => EventStreamStateV {
            keyboard_layouts: Some(keyboard_layouts@),
            ..s
        },
        Event::KeyboardLayoutSwitched { idx } => EventStreamStateV {
            keyboard_layouts: match s.keyboard_layouts {
                Some(k) => Some(KeyboardLayoutsV { current_idx: *idx, ..k }),
                None => None,
            },
            ..s
        },
        Event::OverviewOpenedOrClosed { is_open } => EventStreamStateV {
            overview: OverviewState { is_open: *is_open },
            ..s
        },
        Event::ConfigLoaded { failed } => EventStreamStateV {
            config: ConfigState { failed: *failed },
            ..s
        },
    }
}

impl EventStreamState {
    /// Applies one event, dispatching to exactly the facet the event
    /// belongs to. The state invariant holds again once the application
    /// has finished.
    pub fn apply(&mut self, event: Event)
        requires
            state_wf(old(self)@),
            event_valid(old(self)@, &event),
        ensures
            final(self)@ == spec_apply(old(self)@, &event),
            state_wf(final(self)@),
    {
        let ghost s0 = self@;
        match event {
            Event::WorkspacesChanged { workspaces } => {
                self.workspaces.workspaces = workspaces;
                proof {
                    assert(self@ =~= spec_apply(s0, &Event::WorkspacesChanged { workspaces }));
                }
            },
            Event::WorkspaceActivated { id, focused } => {
                self.workspaces.activate(id, focused);
            },
            Event::WorkspaceUrgencyChanged { id, urgent } => {
                self.workspaces.set_urgency(id, urgent);
            },
            Event::WorkspaceActiveWindowChanged { workspace_id, active_window_id } => {
                self.workspaces.set_active_window(workspace_id, active_window_id);
            },
            Event::WindowsChanged { windows } => {
                self.windows.windows = windows;
            },
            Event::WindowOpenedOrChanged { window } => {
                self.windows.open_or_change(window);
            },
            Event::WindowClosed { id } => {
                self.windows.close(id);
            },
            Event::WindowFocusChanged { id } => {
                self.windows.focus(id);
            },
            Event::WindowUrgencyChanged { id, urgent } => {
                self.windows.set_urgency(id, urgent);
            },
            Event::WindowLayoutsChanged { changes } => {
                self.windows.set_layouts(&changes);
            },
            Event::KeyboardLayoutsChanged { keyboard_layouts } => {
                self.keyboard_layouts.keyboard_layouts = Some(keyboard_layouts);
            },
            Event::KeyboardLayoutSwitched { idx } => {
                match &mut self.keyboard_layouts.keyboard_layouts {
                    Some(k) => {
                        k.current_idx = idx;
                    },
                    None => {
                        proof {
                            assert(false);
                        }
                    },
                }
            },
            Event::OverviewOpenedOrClosed { is_open } => {
                self.overview.is_open = is_open;
            },
            Event::ConfigLoaded { failed } => {
                self.config.failed = failed;
            },
        }
        proof {
            lemma_apply_preserves_wf(s0, &event);
        }
    }
}

/// Activation keeps every workspace's id and output, and so keeps the id
/// set; it re-establishes at most one active workspace per output.
pub proof fn lemma_activate_preserves_wf(ws: Seq<WorkspaceV>, id: u64, focused: bool)
    requires
        workspace_ids_unique(ws),
        one_active_per_output(ws),
        ws_has_id(ws, id),
    ensures
        spec_activate(ws, id, focused).len() == ws.len(),
        forall|i: int|
            0 <= i < ws.len() ==> (#[trigger] spec_activate(ws, id, focused)[i]).id == ws[i].id
                && spec_activate(ws, id, focused)[i].output == ws[i].output
                && spec_activate(ws, id, focused)[i].idx == ws[i].idx,
        workspace_ids_unique(spec_activate(ws, id, focused)),
        one_active_per_output(spec_activate(ws, id, focused)),
        forall|x: u64| ws_has_id(spec_activate(ws, id, focused), x) == ws_has_id(ws, x),
{
    let r = spec_activate(ws, id, focused);
    let target = ws_find(ws, id);
    assert forall|i: int, j: int|
        0 <= i < j < r.len() && r[i].output is Some && r[i].output == r[j].output implies !(
    r[i].is_active && r[j].is_active) by {
        if ws[i].output == target.output {
            assert(ws[i].id != ws[j].id);
        }
    }
    assert forall|x: u64| ws_has_id(r, x) == ws_has_id(ws, x) by {
        if ws_has_id(ws, x) {
            let i = ws_idx_of(ws, x);
            assert(r[i].id == x);
        }
        if ws_has_id(r, x) {
            let i = ws_idx_of(r, x);
            assert(ws[i].id == x);
        }
    }
}

/// An update that keeps a workspace's id, output and active flag keeps the
/// whole workspaces invariant and the id set.
pub proof fn lemma_ws_update_preserves_wf(ws: Seq<WorkspaceV>, k: int, w: WorkspaceV)
    requires
        workspace_ids_unique(ws),
        one_active_per_output(ws),
        0 <= k < ws.len(),
        w.id == ws[k].id,
        w.output == ws[k].output,
        w.is_active == ws[k].is_active,
    ensures
        workspace_ids_unique(ws.update(k, w)),
        one_active_per_output(ws.update(k, w)),
        forall|x: u64| ws_has_id(ws.update(k, w), x) == ws_has_id(ws, x),
{
    let r = ws.update(k, w);
    assert forall|x: u64| ws_has_id(r, x) == ws_has_id(ws, x) by {
        if ws_has_id(ws, x) {
            let i = ws_idx_of(ws, x);
            assert(r[i].id == x);
        }
        if ws_has_id(r, x) {
            let i = ws_idx_of(r, x);
            assert(ws[i].id == x);
        }
    }
}

/// Insert-or-replace of one window keeps unique window ids, and keeps
/// every workspace reference provided the new window's one is valid.
pub proof fn lemma_window_open_preserves_wf(
    ws: Seq<Window>,
    w: Window,
    wss: Seq<WorkspaceV>,
)
    requires
        window_ids_unique(ws),
        windows_reference_workspaces(ws, wss),
        match w.workspace_id {
            Some(wid) => ws_has_id(wss, wid),
            None => true,
        },
    ensures
        window_ids_unique(spec_window_open(ws, w)),
        windows_reference_workspaces(spec_window_open(ws, w), wss),
{
    let r = spec_window_open(ws, w);
    let base = if win_has_id(ws, w.id) {
        ws.update(win_idx_of(ws, w.id), w)
    } else {
        ws.push(w)
    };
    if win_has_id(ws, w.id) {
        let k = win_idx_of(ws, w.id);
        assert(0 <= k < ws.len() && ws[k].id == w.id);
        assert(window_ids_unique(base));
    } else {
        assert forall|i: int, j: int| 0 <= i < j < base.len() implies base[i].id != base[j].id by {
            if j == ws.len() {
                assert(base[j] == w);
                if base[i].id == w.id {
                    assert(win_has_id(ws, w.id));
                }
            }
        }
    }
    assert(window_ids_unique(base));
    assert(windows_reference_workspaces(base, wss));
    if w.is_focused {
        let m = base.map_values(|x: Window| Window { is_focused: x.id == w.id, ..x });
        assert forall|i: int, j: int| 0 <= i < j < m.len() implies m[i].id != m[j].id by {
            assert(m[i].id == base[i].id && m[j].id == base[j].id);
        }
        assert forall|i: int|
            0 <= i < m.len() implies match (#[trigger] m[i]).workspace_id {
            Some(wid) => ws_has_id(wss, wid),
            None => true,
        } by {
            assert(m[i].workspace_id == base[i].workspace_id);
            assert(match base[i].workspace_id {
                Some(wid) => ws_has_id(wss, wid),
                None => true,
            });
        }
    }
}

/// Removal of one window keeps unique window ids and every workspace
/// reference.
pub proof fn lemma_window_closed_preserves_wf(ws: Seq<Window>, id: u64, wss: Seq<WorkspaceV>)
    requires
        window_ids_unique(ws),
        windows_reference_workspaces(ws, wss),
        win_has_id(ws, id),
    ensures
        window_ids_unique(spec_window_closed(ws, id)),
        windows_reference_workspaces(spec_window_closed(ws, id), wss),
{
    let k = win_idx_of(ws, id);
    let r = spec_window_closed(ws, id);
    assert forall|i: int|
        0 <= i < r.len() implies match (#[trigger] r[i]).workspace_id {
        Some(wid) => ws_has_id(wss, wid),
        None => true,
    } by {
        let src = if i < k {
            i
        } else {
            i + 1
        };
        assert(r[i] == ws[src]);
        assert(match ws[src].workspace_id {
            Some(wid) => ws_has_id(wss, wid),
            None => true,
        });
    }
}

/// A pointwise update of focus or urgency flags keeps ids and references.
pub proof fn lemma_window_map_preserves_wf(
    ws: Seq<Window>,
    r: Seq<Window>,
    wss: Seq<WorkspaceV>,
)
    requires
        window_ids_unique(ws),
        windows_reference_workspaces(ws, wss),
        r.len() == ws.len(),
        forall|i: int|
            0 <= i < ws.len() ==> (#[trigger] r[i]).id == ws[i].id && r[i].workspace_id
                == ws[i].workspace_id,
    ensures
        window_ids_unique(r),
        windows_reference_workspaces(r, wss),
{
    assert forall|i: int|
        0 <= i < r.len() implies match (#[trigger] r[i]).workspace_id {
        Some(wid) => ws_has_id(wss, wid),
        None => true,
    } by {
        assert(match ws[i].workspace_id {
            Some(wid) => ws_has_id(wss, wid),
            None => true,
        });
    }
}

/// A batch of layout updates keeps unique window ids, the id set, and
/// every workspace reference.
pub proof fn lemma_window_layouts_preserves_wf(
    ws: Seq<Window>,
    cs: Seq<WindowLayoutChange>,
    wss: Seq<WorkspaceV>,
)
    requires
        window_ids_unique(ws),
        windows_reference_workspaces(ws, wss),
        forall|i: int| 0 <= i < cs.len() ==> win_has_id(ws, (#[trigger] cs[i]).id),
    ensures
        window_ids_unique(spec_window_layouts(ws, cs)),
        windows_reference_workspaces(spec_window_layouts(ws, cs), wss),
    decreases cs.len(),
{
    if cs.len() > 0 {
        lemma_layout_one_preserves(ws, cs[0]);
        let ws1 = spec_window_layout_one(ws, cs[0]);
        lemma_window_map_preserves_wf(ws, ws1, wss);
        assert forall|i: int| 0 <= i < cs.skip(1).len() implies win_has_id(
            ws1,
            (#[trigger] cs.skip(1)[i]).id,
        ) by {
            assert(cs.skip(1)[i] == cs[i + 1]);
        }
        lemma_window_layouts_preserves_wf(ws1, cs.skip(1), wss);
    }
}

/// Applying any valid event to a well-formed state leaves the state
/// well-formed: every window reference still names an existing workspace
/// and at most one workspace per output is active.
pub proof fn lemma_apply_preserves_wf(s: EventStreamStateV, e: &Event)
    requires
        state_wf(s),
        event_valid(s, e),
    ensures
        state_wf(spec_apply(s, e)),
{
    match e {
        Event::WorkspacesChanged { .. } => {},
        Event::WorkspaceActivated { id, focused } => {
            lemma_activate_preserves_wf(s.workspaces, *id, *focused);
            let r = spec_activate(s.workspaces, *id, *focused);
            assert forall|i: int|
                0 <= i < s.windows.len() implies match (#[trigger] s.windows[i]).workspace_id {
                Some(wid) => ws_has_id(r, wid),
                None => true,
            } by {
                assert(match s.windows[i].workspace_id {
                    Some(wid) => ws_has_id(s.workspaces, wid),
                    None => true,
                });
            }
        },
        Event::WorkspaceUrgencyChanged { id, urgent } => {
            let k = ws_idx_of(s.workspaces, *id);
            lemma_ws_update_preserves_wf(
                s.workspaces,
                k,
                WorkspaceV { is_urgent: *urgent, ..ws_find(s.workspaces, *id) },
            );
        },
        Event::WorkspaceActiveWindowChanged { workspace_id, active_window_id } => {
            let k = ws_idx_of(s.workspaces, *workspace_id);
            lemma_ws_update_preserves_wf(
                s.workspaces,
                k,
                WorkspaceV {
                    active_window_id: *active_window_id,
                    ..ws_find(s.workspaces, *workspace_id)
                },
            );
        },
        Event::WindowsChanged { .. } => {},
        Event::WindowOpenedOrChanged { window } => {
            lemma_window_open_preserves_wf(s.windows, *window, s.workspaces);
        },
        Event::WindowClosed { id } => {
            lemma_window_closed_preserves_wf(s.windows, *id, s.workspaces);
        },
        Event::WindowFocusChanged { id } => {
            lemma_window_map_preserves_wf(
                s.windows,
                spec_window_focus(s.windows, *id),
                s.workspaces,
            );
        },
        Event::WindowUrgencyChanged { id, urgent } => {
            lemma_layout_one_preserves(s.windows, WindowLayoutChange { id: *id, layout: s.windows[win_idx_of(s.windows, *id)].layout });
            lemma_window_map_preserves_wf(
                s.windows,
                spec_window_urgency(s.windows, *id, *urgent),
                s.workspaces,
            );
        },
        Event::WindowLayoutsChanged { changes } => {
            lemma_window_layouts_preserves_wf(s.windows, changes@, s.workspaces);
        },
        Event::KeyboardLayoutsChanged { .. } => {},
        Event::KeyboardLayoutSwitched { .. } => {},
        Event::OverviewOpenedOrClosed { .. } => {},
        Event::ConfigLoaded { .. } => {},
    }
}

/// The state after applying a whole sequence of events, left to right.
pub open spec fn spec_apply_seq(s: EventStreamStateV, es: Seq<Event>) -> EventStreamStateV
    decreases es.len(),
{
    if es.len() == 0 {
        s
    } else {
        spec_apply_seq(spec_apply(s, &es[0]), es.skip(1))
    }
}

/// Whether each event of a sequence is valid for the state it meets.
pub open spec fn events_valid_seq(s: EventStreamStateV, es: Seq<Event>) -> bool
    decreases es.len(),
{
    if es.len() == 0 {
        true
    } else {
        event_valid(s, &es[0]) && events_valid_seq(spec_apply(s, &es[0]), es.skip(1))
    }
}

/// For every sequence of valid events, the post-state satisfies the state
/// invariant: each window's workspace reference names an existing
/// workspace, and at most one workspace per output is marked active.
pub proof fn lemma_apply_seq_preserves_wf(s: EventStreamStateV, es: Seq<Event>)
    requires
        state_wf(s),
        events_valid_seq(s, es),
    ensures
        state_wf(spec_apply_seq(s, es)),
    decreases es.len(),
{
    if es.len() > 0 {
        lemma_apply_preserves_wf(s, &es[0]);
        lemma_apply_seq_preserves_wf(spec_apply(s, &es[0]), es.skip(1));
    }
}

/// Applying the same activation twice in a row yields exactly the state —
/// and so the same active-workspace projection — as applying it once.
pub proof fn lemma_activate_idempotent(s: EventStreamStateV, id: u64, focused: bool)
    requires
        state_wf(s),
        ws_has_id(s.workspaces, id),
    ensures
        event_valid(
            spec_apply(s, &(Event::WorkspaceActivated { id, focused })),
            &(Event::WorkspaceActivated { id, focused }),
        ),
        spec_apply(
            spec_apply(s, &(Event::WorkspaceActivated { id, focused })),
            &(Event::WorkspaceActivated { id, focused }),
        ) == spec_apply(s, &(Event::WorkspaceActivated { id, focused })),
{
    let ws = s.workspaces;
    lemma_activate_preserves_wf(ws, id, focused);
    let r1 = spec_activate(ws, id, focused);
    let r2 = spec_activate(r1, id, focused);
    let k = ws_idx_of(ws, id);
    assert(0 <= k < ws.len() && ws[k].id == id);
    lemma_ws_idx_unique(r1, id, k);
    assert(ws_find(r1, id).output == ws_find(ws, id).output);
    assert forall|i: int| 0 <= i < r1.len() implies r2[i] == r1[i] by {
        assert(r1[i].output == ws[i].output);
        assert(r2[i] =~= r1[i]);
    }
    assert(r2 =~= r1);
}

/// A wrapper around [`EventStreamState`] tying the reducer to the
/// projections the consumer reads.
#[derive(Debug)]
pub struct NiriState(pub EventStreamState);

impl View for NiriState {
    type V = EventStreamStateV;

    open spec fn view(&self) -> EventStreamStateV {
        self.0@
    }
}

impl NiriState {
    /// Applies one event; every event variant is consumed here, so no
    /// leftover event is ever handed back.
    pub fn apply(&mut self, event: Event) -> (r: Option<Event>)
        requires
            state_wf(old(self)@),
            event_valid(old(self)@, &event),
        ensures
            final(self)@ == spec_apply(old(self)@, &event),
            state_wf(final(self)@),
            r is None,
    {
        self.0.apply(event);
        None
    }

    /// A copy of the workspaces facet.
    pub fn workspaces_state(&self) -> (r: Vec<Workspace>)
        ensures
            ws_views(r@) == self@.workspaces,
    {
        let r = crate::model::workspaces_clone(&self.0.workspaces.workspaces);
        proof {
            assert(ws_views(r@) =~= self@.workspaces);
        }
        r
    }

    /// A copy of the windows facet.
    pub fn windows_state(&self) -> (r: Vec<Window>)
        ensures
            r@ == self@.windows,
    {
        let mut r: Vec<Window> = Vec::new();
        let mut i: usize = 0;
        let v = &self.0.windows.windows;
        while i < v.len()
            invariant
                0 <= i <= v.len(),
                r@ == v@.subrange(0, i as int),
            decreases v.len() - i,
        {
            r.push(v[i]);
            proof {
                assert(r@ =~= v@.subrange(0, i + 1));
            }
            i += 1;
        }
        proof {
            assert(r@ =~= v@);
        }
        r
    }
}

impl Default for NiriState {
    fn default() -> (r: Self)
        ensures
            r@.workspaces.len() == 0,
            r@.windows.len() == 0,
            r@.keyboard_layouts is None,
            state_wf(r@),
    {
        NiriState(EventStreamState::new())
    }
}

/// A single layout update keeps the ids, their uniqueness, and every
/// workspace reference.
pub proof fn lemma_layout_one_preserves(ws: Seq<Window>, c: WindowLayoutChange)
    requires
        window_ids_unique(ws),
        win_has_id(ws, c.id),
    ensures
        spec_window_layout_one(ws, c).len() == ws.len(),
        forall|i: int|
            0 <= i < ws.len() ==> (#[trigger] spec_window_layout_one(ws, c)[i]).id == ws[i].id
                && spec_window_layout_one(ws, c)[i].workspace_id == ws[i].workspace_id,
        window_ids_unique(spec_window_layout_one(ws, c)),
        forall|id: u64| win_has_id(spec_window_layout_one(ws, c), id) == win_has_id(ws, id),
{
    let r = spec_window_layout_one(ws, c);
    assert forall|id: u64| win_has_id(r, id) == win_has_id(ws, id) by {
        if win_has_id(ws, id) {
            let i = win_idx_of(ws, id);
            assert(r[i].id == id);
        }
        if win_has_id(r, id) {
            let i = win_idx_of(r, id);
            assert(ws[i].id == id);
        }
    }
}

} // verus!
