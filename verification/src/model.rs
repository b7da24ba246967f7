//! Data model of the synchronized state: workspaces, windows, keyboard
//! layouts, overview and config facets, together with their mathematical
//! views and the well-formedness invariants the reducer preserves.

use vstd::prelude::*;

verus! {

/// A position in the scrolling layout: the column and the row within it.
#[derive(Clone, Copy, PartialEq, Eq, Structural, Debug)]
pub struct ScrollPos {
    pub x: usize,
    pub y: usize,
}

/// Layout attributes of one window. Only the position in the scrolling
/// layout is tracked: `Some` when the window has been laid out, `None`
/// while layout data is absent.
#[derive(Clone, Copy, PartialEq, Eq, Structural, Debug)]
pub struct WindowLayout {
    pub pos_in_scrolling_layout: Option<ScrollPos>,
}

/// One window, carrying exactly the fields the reducer and the
/// projections read.
#[derive(Clone, Copy, PartialEq, Eq, Structural, Debug)]
pub struct Window {
    pub id: u64,
    pub workspace_id: Option<u64>,
    pub is_focused: bool,
    pub is_floating: bool,
    pub is_urgent: bool,
    pub layout: WindowLayout,
}

/// One workspace. `output` names the monitor the workspace is shown on,
/// when it is assigned to one.
#[derive(Debug)]
pub struct Workspace {
    pub id: u64,
    pub idx: u8,
    pub output: Option<Vec<char>>,
    pub is_active: bool,
    pub is_focused: bool,
    pub is_urgent: bool,
    pub active_window_id: Option<u64>,
}

/// Mathematical view of a workspace.
#[verifier::ext_equal]
pub ghost struct WorkspaceV {
    pub id: u64,
    pub idx: u8,
    pub output: Option<Seq<char>>,
    pub is_active: bool,
    pub is_focused: bool,
    pub is_urgent: bool,
    pub active_window_id: Option<u64>,
}

impl View for Workspace {
    type V = WorkspaceV;

    open spec fn view(&self) -> WorkspaceV {
        WorkspaceV {
            id: self.id,
            idx: self.idx,
            output: match self.output {
                Some(o) => Some(o@),
                None => None,
            },
            is_active: self.is_active,
            is_focused: self.is_focused,
            is_urgent: self.is_urgent,
            active_window_id: self.active_window_id,
        }
    }
}

/// The set of known keyboard layouts and which one is current.
#[derive(Debug)]
pub struct KeyboardLayouts {
    pub names: Vec<Vec<char>>,
    pub current_idx: u8,
}

/// The views of a vector of character sequences.
pub open spec fn chars_views(v: Seq<Vec<char>>) -> Seq<Seq<char>> {
    v.map_values(|n: Vec<char>| n@)
}

/// Mathematical view of the keyboard layouts.
#[verifier::ext_equal]
pub ghost struct KeyboardLayoutsV {
    pub names: Seq<Seq<char>>,
    pub current_idx: u8,
}

impl View for KeyboardLayouts {
    type V = KeyboardLayoutsV;

    open spec fn view(&self) -> KeyboardLayoutsV {
        KeyboardLayoutsV {
            names: chars_views(self.names@),
            current_idx: self.current_idx,
        }
    }
}

/// The views of a vector of workspaces.
pub open spec fn ws_views(v: Seq<Workspace>) -> Seq<WorkspaceV> {
    v.map_values(|w: Workspace| w@)
}

/// The workspaces facet of the state.
#[derive(Debug)]
pub struct WorkspacesState {
    pub workspaces: Vec<Workspace>,
}

impl View for WorkspacesState {
    type V = Seq<WorkspaceV>;

    open spec fn view(&self) -> Seq<WorkspaceV> {
        ws_views(self.workspaces@)
    }
}

/// The windows facet of the state.
#[derive(Debug)]
pub struct WindowsState {
    pub windows: Vec<Window>,
}

impl View for WindowsState {
    type V = Seq<Window>;

    open spec fn view(&self) -> Seq<Window> {
        self.windows@
    }
}

/// The keyboard-layouts facet of the state.
#[derive(Debug)]
pub struct KeyboardLayoutsState {
    pub keyboard_layouts: Option<KeyboardLayouts>,
}

impl View for KeyboardLayoutsState {
    type V = Option<KeyboardLayoutsV>;

    open spec fn view(&self) -> Option<KeyboardLayoutsV> {
        match self.keyboard_layouts {
            Some(k) => Some(k@),
            None => None,
        }
    }
}

/// The overview facet: whether the overview is open.
#[derive(Clone, Copy, PartialEq, Eq, Structural, Debug)]
pub struct OverviewState {
    pub is_open: bool,
}

/// The config facet: whether the last configuration load failed.
#[derive(Clone, Copy, PartialEq, Eq, Structural, Debug)]
pub struct ConfigState {
    pub failed: bool,
}

/// The authoritative state: a tree of independently owned facets.
#[derive(Debug)]
pub struct EventStreamState {
    pub workspaces: WorkspacesState,
    pub windows: WindowsState,
    pub keyboard_layouts: KeyboardLayoutsState,
    pub overview: OverviewState,
    pub config: ConfigState,
}

/// Mathematical view of the whole state.
#[verifier::ext_equal]
pub ghost struct EventStreamStateV {
    pub workspaces: Seq<WorkspaceV>,
    pub windows: Seq<Window>,
    pub keyboard_layouts: Option<KeyboardLayoutsV>,
    pub overview: OverviewState,
    pub config: ConfigState,
}

impl View for EventStreamState {
    type V = EventStreamStateV;

    open spec fn view(&self) -> EventStreamStateV {
        EventStreamStateV {
            workspaces: self.workspaces@,
            windows: self.windows@,
            keyboard_layouts: self.keyboard_layouts@,
            overview: self.overview,
            config: self.config,
        }
    }
}

impl EventStreamState {
    /// The empty state every stream-backed facet starts from.
    pub fn new() -> (r: Self)
        ensures
            r@.workspaces.len() == 0,
            r@.windows.len() == 0,
            r@.keyboard_layouts is None,
            !r@.overview.is_open,
            !r@.config.failed,
            state_wf(r@),
    {
        EventStreamState {
            workspaces: WorkspacesState { workspaces: Vec::new() },
            windows: WindowsState { windows: Vec::new() },
            keyboard_layouts: KeyboardLayoutsState { keyboard_layouts: None },
            overview: OverviewState { is_open: false },
            config: ConfigState { failed: false },
        }
    }
}

impl Default for EventStreamState {
    fn default() -> (r: Self)
        ensures
            r@.workspaces.len() == 0,
            r@.windows.len() == 0,
            r@.keyboard_layouts is None,
            !r@.overview.is_open,
            !r@.config.failed,
            state_wf(r@),
    {
        EventStreamState::new()
    }
}

/// Whether a workspace with the given id is present.
pub open spec fn ws_has_id(ws: Seq<WorkspaceV>, id: u64) -> bool {
    exists|i: int| 0 <= i < ws.len() && ws[i].id == id
}

/// The position of the workspace with the given id (unique when the ids
/// are unique).
pub open spec fn ws_idx_of(ws: Seq<WorkspaceV>, id: u64) -> int {
    choose|i: int| 0 <= i < ws.len() && ws[i].id == id
}

/// The workspace with the given id.
pub open spec fn ws_find(ws: Seq<WorkspaceV>, id: u64) -> WorkspaceV {
    ws[ws_idx_of(ws, id)]
}

/// Whether a window with the given id is present.
pub open spec fn win_has_id(ws: Seq<Window>, id: u64) -> bool {
    exists|i: int| 0 <= i < ws.len() && ws[i].id == id
}

/// The position of the window with the given id.
pub open spec fn win_idx_of(ws: Seq<Window>, id: u64) -> int {
    choose|i: int| 0 <= i < ws.len() && ws[i].id == id
}

/// No two workspaces share an id.
pub open spec fn workspace_ids_unique(ws: Seq<WorkspaceV>) -> bool {
    forall|i: int, j: int| 0 <= i < j < ws.len() ==> ws[i].id != ws[j].id
}

/// At most one workspace per output is marked active.
pub open spec fn one_active_per_output(ws: Seq<WorkspaceV>) -> bool {
    forall|i: int, j: int|
        0 <= i < j < ws.len() && ws[i].output is Some && ws[i].output == ws[j].output
            ==> !(ws[i].is_active && ws[j].is_active)
}

/// No two windows share an id.
pub open spec fn window_ids_unique(ws: Seq<Window>) -> bool {
    forall|i: int, j: int| 0 <= i < j < ws.len() ==> ws[i].id != ws[j].id
}

/// Every window assigned to a workspace references one that exists.
pub open spec fn windows_reference_workspaces(
    windows: Seq<Window>,
    ws: Seq<WorkspaceV>,
) -> bool {
    forall|i: int|
        0 <= i < windows.len() ==> match #[trigger] windows[i].workspace_id {
            Some(id) => ws_has_id(ws, id),
            None => true,
        }
}

/// The invariant of the whole state: referential integrity between the
/// windows and workspaces facets, unique ids, and at most one active
/// workspace per output.
pub open spec fn state_wf(s: EventStreamStateV) -> bool {
    &&& workspace_ids_unique(s.workspaces)
    &&& one_active_per_output(s.workspaces)
    &&& window_ids_unique(s.windows)
    &&& windows_reference_workspaces(s.windows, s.workspaces)
}

/// A found index agrees with the chosen one when ids are unique.
pub proof fn lemma_ws_idx_unique(ws: Seq<WorkspaceV>, id: u64, i: int)
    requires
        workspace_ids_unique(ws),
        0 <= i < ws.len(),
        ws[i].id == id,
    ensures
        ws_idx_of(ws, id) == i,
        ws_has_id(ws, id),
{
    assert(ws_has_id(ws, id));
    let j = ws_idx_of(ws, id);
    assert(0 <= j < ws.len() && ws[j].id == id);
    if i != j {
        if i < j {
            assert(ws[i].id != ws[j].id);
        } else {
            assert(ws[j].id != ws[i].id);
        }
    }
}

/// A found index agrees with the chosen one when window ids are unique.
pub proof fn lemma_win_idx_unique(ws: Seq<Window>, id: u64, i: int)
    requires
        window_ids_unique(ws),
        0 <= i < ws.len(),
        ws[i].id == id,
    ensures
        win_idx_of(ws, id) == i,
        win_has_id(ws, id),
{
    assert(win_has_id(ws, id));
    let j = win_idx_of(ws, id);
    assert(0 <= j < ws.len() && ws[j].id == id);
    if i != j {
        if i < j {
            assert(ws[i].id != ws[j].id);
        } else {
            assert(ws[j].id != ws[i].id);
        }
    }
}

/// Clones a character sequence.
pub fn chars_clone(v: &Vec<char>) -> (r: Vec<char>)
    ensures
        r@ == v@,
{
    let mut r: Vec<char> = Vec::new();
    let mut i: usize = 0;
    while i < v.len()
        invariant
            0 <= i <= v.len(),
            r@ == v@.subrange(0, i as int),
        decreases v.len() - i,
    {
        r.push(v[i]);
        proof {
            assert(r@ =~= v@.subrange(0, i + 1));
        }
        i += 1;
    }
    proof {
        assert(r@ =~= v@);
    }
    r
}

/// Clones an optional character sequence.
pub fn opt_chars_clone(v: &Option<Vec<char>>) -> (r: Option<Vec<char>>)
    ensures
        match (v, &r) {
            (Some(a), Some(b)) => a@ == b@,
            (None, None) => true,
            _ => false,
        },
{
    match v {
        Some(a) => Some(chars_clone(a)),
        None => None,
    }
}

/// Whether two character sequences hold the same characters.
pub fn chars_eq(a: &Vec<char>, b: &Vec<char>) -> (r: bool)
    ensures
        r <==> a@ == b@,
{
    if a.len() != b.len() {
        return false;
    }
    let mut i: usize = 0;
    while i < a.len()
        invariant
            0 <= i <= a.len(),
            a.len() == b.len(),
            a@.len() == b@.len(),
            forall|k: int| 0 <= k < i ==> a@[k] == b@[k],
        decreases a.len() - i,
    {
        if a[i] != b[i] {
            return false;
        }
        i += 1;
    }
    proof {
        assert(a@ =~= b@);
    }
    true
}

/// Whether two optional character sequences agree.
pub fn opt_chars_eq(a: &Option<Vec<char>>, b: &Option<Vec<char>>) -> (r: bool)
    ensures
        r <==> (match (a, b) {
            (Some(x), Some(y)) => x@ == y@,
            (None, None) => true,
            _ => false,
        }),
{
    match (a, b) {
        (Some(x), Some(y)) => chars_eq(x, y),
        (None, None) => true,
        _ => false,
    }
}

/// Clones a workspace, preserving its view.
pub fn workspace_clone(w: &Workspace) -> (r: Workspace)
    ensures
        r@ == w@,
{
    Workspace {
        id: w.id,
        idx: w.idx,
        output: opt_chars_clone(&w.output),
        is_active: w.is_active,
        is_focused: w.is_focused,
        is_urgent: w.is_urgent,
        active_window_id: w.active_window_id,
    }
}

/// Clones a whole workspace vector, preserving its view.
pub fn workspaces_clone(v: &Vec<Workspace>) -> (r: Vec<Workspace>)
    ensures
        ws_views(r@) == ws_views(v@),
        r@.len() == v@.len(),
{
    let mut r: Vec<Workspace> = Vec::new();
    let mut i: usize = 0;
    while i < v.len()
        invariant
            0 <= i <= v.len(),
            r@.len() == i,
            forall|k: int| 0 <= k < i ==> #[trigger] r@[k]@ == v@[k]@,
        decreases v.len() - i,
    {
        r.push(workspace_clone(&v[i]));
        i += 1;
    }
    proof {
        assert(ws_views(r@) =~= ws_views(v@));
    }
    r
}

} // verus!
