//! Domain events: the tagged variants describing one atomic change each,
//! and the validity of an event with respect to the current state.

use vstd::prelude::*;

use crate::model::{
    ws_has_id, ws_views, win_has_id, workspace_ids_unique, one_active_per_output, window_ids_unique,
    windows_reference_workspaces, EventStreamStateV, KeyboardLayouts, Window, WindowLayout,
    Workspace, WorkspaceV,
};

verus! {

/// One layout update carried by a `WindowLayoutsChanged` event.
#[derive(Clone, Copy, PartialEq, Eq, Structural, Debug)]
pub struct WindowLayoutChange {
    pub id: u64,
    pub layout: WindowLayout,
}

/// One atomic change to the synchronized state. Each variant carries only
/// the fields needed to apply the change, never a full state snapshot.
#[derive(Debug)]
pub enum Event {
    WorkspacesChanged { workspaces: Vec<Workspace> },
    WorkspaceActivated { id: u64, focused: bool },
    WorkspaceUrgencyChanged { id: u64, urgent: bool },
    WorkspaceActiveWindowChanged { workspace_id: u64, active_window_id: Option<u64> },
    WindowsChanged { windows: Vec<Window> },
    WindowOpenedOrChanged { window: Window },
    WindowClosed { id: u64 },
    WindowFocusChanged { id: Option<u64> },
    WindowUrgencyChanged { id: u64, urgent: bool },
    WindowLayoutsChanged { changes: Vec<WindowLayoutChange> },
    KeyboardLayoutsChanged { keyboard_layouts: KeyboardLayouts },
    KeyboardLayoutSwitched { idx: u8 },
    OverviewOpenedOrClosed { is_open: bool },
    ConfigLoaded { failed: bool },
}

/// Whether the event belongs to the workspaces facet.
pub open spec fn spec_is_workspace_event(e: &Event) -> bool {
    match e {
        Event::WorkspacesChanged { .. } => true,
        Event::WorkspaceActivated { .. } => true,
        Event::WorkspaceUrgencyChanged { .. } => true,
        Event::WorkspaceActiveWindowChanged { .. } => true,
        _ => false,
    }
}

/// Whether the event belongs to the workspaces facet: the filter the
/// workspace-only consumer applies before reducing.
pub fn is_workspace_event(e: &Event) -> (r: bool)
    ensures
        r == spec_is_workspace_event(e),
{
    match e {
        Event::WorkspacesChanged { .. } => true,
        Event::WorkspaceActivated { .. } => true,
        Event::WorkspaceUrgencyChanged { .. } => true,
        Event::WorkspaceActiveWindowChanged { .. } => true,
        _ => false,
    }
}

/// Whether an event is consistent with the state it is applied to: every
/// id it targets exists, and a replaced facet keeps the state invariant.
/// An event that fails this check indicates a corrupted upstream and is a
/// fatal condition, not expected control flow.
pub open spec fn event_valid(s: EventStreamStateV, e: &Event) -> bool {
    match e {
        Event::WorkspacesChanged { workspaces } => {
            &&& workspace_ids_unique(ws_views(workspaces@))
            &&& one_active_per_output(ws_views(workspaces@))
            &&& windows_reference_workspaces(s.windows, ws_views(workspaces@))
        },
        Event::WorkspaceActivated { id, .. } => ws_has_id(s.workspaces, *id),
        Event::WorkspaceUrgencyChanged { id, .. } => ws_has_id(s.workspaces, *id),
        Event::WorkspaceActiveWindowChanged { workspace_id, .. } => ws_has_id(
            s.workspaces,
            *workspace_id,
        ),
        Event::WindowsChanged { windows } => {
            &&& window_ids_unique(windows@)
            &&& windows_reference_workspaces(windows@, s.workspaces)
        },
        Event::WindowOpenedOrChanged { window } => match window.workspace_id {
            Some(wid) => ws_has_id(s.workspaces, wid),
            None => true,
        },
        Event::WindowClosed { id } => win_has_id(s.windows, *id),
        Event::WindowFocusChanged { id } => match id {
            Some(i) => win_has_id(s.windows, *i),
            None => true,
        },
        Event::WindowUrgencyChanged { id, .. } => win_has_id(s.windows, *id),
        Event::WindowLayoutsChanged { changes } => forall|i: int|
            0 <= i < changes@.len() ==> win_has_id(s.windows, (#[trigger] changes@[i]).id),
        Event::KeyboardLayoutsChanged { keyboard_layouts } => (keyboard_layouts.current_idx
            as int) < keyboard_layouts.names@.len(),
        Event::KeyboardLayoutSwitched { idx } => match s.keyboard_layouts {
            Some(k) => (*idx as int) < k.names.len(),
            None => false,
        },
        Event::OverviewOpenedOrClosed { .. } => true,
        Event::ConfigLoaded { .. } => true,
    }
}

/// Whether a workspace with the given id is in the vector.
fn vec_has_ws_id(v: &Vec<Workspace>, id: u64) -> (r: bool)
    ensures
        r == ws_has_id(ws_views(v@), id),
{
    let mut i: usize = 0;
    while i < v.len()
        invariant
            0 <= i <= v.len(),
            forall|k: int| 0 <= k < i ==> ws_views(v@)[k].id != id,
        decreases v.len() - i,
    {
        if v[i].id == id {
            proof {
                assert(ws_views(v@)[i as int].id == id);
            }
            return true;
        }
        i += 1;
    }
    false
}

/// Whether a window with the given id is in the vector.
fn vec_has_win_id(v: &Vec<Window>, id: u64) -> (r: bool)
    ensures
        r == win_has_id(v@, id),
{
    let mut i: usize = 0;
    while i < v.len()
        invariant
            0 <= i <= v.len(),
            forall|k: int| 0 <= k < i ==> v@[k].id != id,
        decreases v.len() - i,
    {
        if v[i].id == id {
            return true;
        }
        i += 1;
    }
    false
}

/// Whether no two workspaces of the vector share an id.
fn ws_ids_unique_exec(v: &Vec<Workspace>) -> (r: bool)
    ensures
        r == workspace_ids_unique(ws_views(v@)),
{
    let mut i: usize = 0;
    while i < v.len()
        invariant
            0 <= i <= v.len(),
            forall|a: int, b: int|
                0 <= a < b < v@.len() && a < i ==> ws_views(v@)[a].id != ws_views(v@)[b].id,
        decreases v.len() - i,
    {
        let mut j: usize = i + 1;
        while j < v.len()
            invariant
                0 <= i < j <= v.len(),
                forall|b: int| i < b < j ==> ws_views(v@)[i as int].id != ws_views(v@)[b].id,
            decreases v.len() - j,
        {
            if v[i].id == v[j].id {
                proof {
                    assert(ws_views(v@)[i as int].id == ws_views(v@)[j as int].id);
                }
                return false;
            }
            j += 1;
        }
        i += 1;
    }
    true
}

/// Whether no two windows of the vector share an id.
fn win_ids_unique_exec(v: &Vec<Window>) -> (r: bool)
    ensures
        r == window_ids_unique(v@),
{
    let mut i: usize = 0;
    while i < v.len()
        invariant
            0 <= i <= v.len(),
            forall|a: int, b: int| 0 <= a < b < v@.len() && a < i ==> v@[a].id != v@[b].id,
        decreases v.len() - i,
    {
        let mut j: usize = i + 1;
        while j < v.len()
            invariant
                0 <= i < j <= v.len(),
                forall|b: int| i < b < j ==> v@[i as int].id != v@[b].id,
            decreases v.len() - j,
        {
            if v[i].id == v[j].id {
                return false;
            }
            j += 1;
        }
        i += 1;
    }
    true
}

/// Whether at most one workspace per output is marked active.
fn one_active_exec(v: &Vec<Workspace>) -> (r: bool)
    ensures
        r == one_active_per_output(ws_views(v@)),
{
    let mut i: usize = 0;
    while i < v.len()
        invariant
            0 <= i <= v.len(),
            forall|a: int, b: int|
                0 <= a < b < v@.len() && a < i && ws_views(v@)[a].output is Some && ws_views(
                    v@,
                )[a].output == ws_views(v@)[b].output ==> !(ws_views(v@)[a].is_active && ws_views(
                    v@,
                )[b].is_active),
        decreases v.len() - i,
    {
        let mut j: usize = i + 1;
        while j < v.len()
            invariant
                0 <= i < j <= v.len(),
                forall|b: int|
                    i < b < j && ws_views(v@)[i as int].output is Some && ws_views(
                        v@,
                    )[i as int].output == ws_views(v@)[b].output ==> !(ws_views(
                        v@,
                    )[i as int].is_active && ws_views(v@)[b].is_active),
            decreases v.len() - j,
        {
            let same_output = match (&v[i].output, &v[j].output) {
                (Some(a), Some(b)) => crate::model::chars_eq(a, b),
                _ => false,
            };
            if same_output && v[i].is_active && v[j].is_active {
                proof {
                    assert(ws_views(v@)[i as int].output is Some);
                    assert(ws_views(v@)[i as int].output == ws_views(v@)[j as int].output);
                    assert(ws_views(v@)[i as int].is_active && ws_views(v@)[j as int].is_active);
                }
                return false;
            }
            proof {
                assert(ws_views(v@)[i as int] == v@[i as int]@);
                assert(ws_views(v@)[j as int] == v@[j as int]@);
            }
            j += 1;
        }
        i += 1;
    }
    true
}

/// Whether every window's workspace reference names a workspace of the
/// vector.
fn wins_reference_exec(wins: &Vec<Window>, ws: &Vec<Workspace>) -> (r: bool)
    ensures
        r == windows_reference_workspaces(wins@, ws_views(ws@)),
{
    let mut i: usize = 0;
    while i < wins.len()
        invariant
            0 <= i <= wins.len(),
            forall|k: int|
                0 <= k < i ==> match #[trigger] wins@[k].workspace_id {
                    Some(id) => ws_has_id(ws_views(ws@), id),
                    None => true,
                },
        decreases wins.len() - i,
    {
        match wins[i].workspace_id {
            Some(id) => {
                if !vec_has_ws_id(ws, id) {
                    return false;
                }
            },
            None => {},
        }
        i += 1;
    }
    true
}

/// Decides [`event_valid`] at run time: whether the event is consistent
/// with the given state. A consumer checks this before applying and
/// treats a failure as fatal, mirroring the reducer's contract.
pub fn check_event_valid(s: &crate::model::EventStreamState, e: &Event) -> (r: bool)
    ensures
        r == event_valid(s@, e),
{
    match e {
        Event::WorkspacesChanged { workspaces } => ws_ids_unique_exec(workspaces)
            && one_active_exec(workspaces) && wins_reference_exec(
            &s.windows.windows,
            workspaces,
        ),
        Event::WorkspaceActivated { id, .. } => vec_has_ws_id(&s.workspaces.workspaces, *id),
        Event::WorkspaceUrgencyChanged { id, .. } => vec_has_ws_id(&s.workspaces.workspaces, *id),
        Event::WorkspaceActiveWindowChanged { workspace_id, .. } => vec_has_ws_id(
            &s.workspaces.workspaces,
            *workspace_id,
        ),
        Event::WindowsChanged { windows } => win_ids_unique_exec(windows) && wins_reference_exec(
            windows,
            &s.workspaces.workspaces,
        ),
        Event::WindowOpenedOrChanged { window } => match window.workspace_id {
            Some(wid) => vec_has_ws_id(&s.workspaces.workspaces, wid),
            None => true,
        },
        Event::WindowClosed { id } => vec_has_win_id(&s.windows.windows, *id),
        Event::WindowFocusChanged { id } => match id {
            Some(i) => vec_has_win_id(&s.windows.windows, *i),
            None => true,
        },
        Event::WindowUrgencyChanged { id, .. } => vec_has_win_id(&s.windows.windows, *id),
        Event::WindowLayoutsChanged { changes } => {
            let mut i: usize = 0;
            while i < changes.len()
                invariant
                    0 <= i <= changes.len(),
                    event_valid(s@, e) == (forall|k: int|
                        0 <= k < changes@.len() ==> win_has_id(
                            s@.windows,
                            (#[trigger] changes@[k]).id,
                        )),
                    forall|k: int|
                        0 <= k < i ==> win_has_id(s.windows.windows@, (#[trigger] changes@[k]).id),
                decreases changes.len() - i,
            {
                if !vec_has_win_id(&s.windows.windows, changes[i].id) {
                    proof {
                        assert(!win_has_id(s@.windows, (changes@[i as int]).id));
                    }
                    return false;
                }
                i += 1;
            }
            true
        },
        Event::KeyboardLayoutsChanged { keyboard_layouts } => (keyboard_layouts.current_idx
            as usize) < keyboard_layouts.names.len(),
        Event::KeyboardLayoutSwitched { idx } => match &s.keyboard_layouts.keyboard_layouts {
            Some(k) => (*idx as usize) < k.names.len(),
            None => false,
        },
        Event::OverviewOpenedOrClosed { .. } => true,
        Event::ConfigLoaded { .. } => true,
    }
}

} // verus!
