//! The projection handed to the status-bar consumer: per output, the
//! active workspace index and workspace count, and the focused window's
//! column and the window count of the active workspace. Derived on demand
//! by traversing current state; never maintained incrementally.

use vstd::prelude::*;

use crate::model::{
    chars_clone, chars_eq, ws_views, EventStreamState, EventStreamStateV, Window, Workspace,
    WorkspaceV,
};

verus! {

/// Per-output workspace information.
#[derive(Clone, Copy, PartialEq, Eq, Structural, Debug)]
pub struct WorkspaceInfo {
    /// The 1-based index of the active workspace on this output.
    pub active_workspace: u8,
    /// How many workspaces the output has.
    pub nof_workspaces: u64,
}

/// Per-output window information, about the output's active workspace.
#[derive(Clone, Copy, PartialEq, Eq, Structural, Debug)]
pub struct WorkspaceWindowsInfo {
    /// The focused window's column in the scrolling layout, if a focused
    /// window exists and has been laid out.
    pub focused_window: Option<usize>,
    /// Whether the focused window floats, if one exists.
    pub focused_window_floating: Option<bool>,
    /// How many windows the active workspace holds.
    pub nof_windows: usize,
}

/// The full view model: one entry per output, in the order the outputs
/// first appear in the workspaces facet.
#[derive(Debug)]
pub struct StateInfo {
    pub workspaces: Vec<(Vec<char>, WorkspaceInfo)>,
    pub windows: Vec<(Vec<char>, WorkspaceWindowsInfo)>,
}

/// Mathematical view of [`StateInfo`].
#[verifier::ext_equal]
pub ghost struct StateInfoV {
    pub workspaces: Seq<(Seq<char>, WorkspaceInfo)>,
    pub windows: Seq<(Seq<char>, WorkspaceWindowsInfo)>,
}

/// The views of the per-output workspace entries.
pub open spec fn ws_infos_view(v: Seq<(Vec<char>, WorkspaceInfo)>) -> Seq<(Seq<char>, WorkspaceInfo)> {
    v.map_values(|p: (Vec<char>, WorkspaceInfo)| (p.0@, p.1))
}

/// The views of the per-output window entries.
pub open spec fn win_infos_view(v: Seq<(Vec<char>, WorkspaceWindowsInfo)>) -> Seq<(Seq<char>, WorkspaceWindowsInfo)> {
    v.map_values(|p: (Vec<char>, WorkspaceWindowsInfo)| (p.0@, p.1))
}

impl View for StateInfo {
    type V = StateInfoV;

    open spec fn view(&self) -> StateInfoV {
        StateInfoV {
            workspaces: ws_infos_view(self.workspaces@),
            windows: win_infos_view(self.windows@),
        }
    }
}

/// Projecting fails when some output has workspaces but none of them is
/// marked active: such a state is corrupted and must not be papered over.
#[derive(Debug)]
pub enum StateInfoError {
    MissingActiveWorkspace { output: Vec<char> },
}

/// Accumulates one workspace's output into the ordered list of distinct
/// outputs.
pub open spec fn add_output(acc: Seq<Seq<char>>, w: WorkspaceV) -> Seq<Seq<char>> {
    match w.output {
        Some(o) => if acc.contains(o) {
            acc
        } else {
            acc.push(o)
        },
        None => acc,
    }
}

/// The distinct outputs of the given workspaces, in first-appearance
/// order, continuing from an accumulator.
pub open spec fn outputs_from(acc: Seq<Seq<char>>, ws: Seq<WorkspaceV>) -> Seq<Seq<char>>
    decreases ws.len(),
{
    if ws.len() == 0 {
        acc
    } else {
        outputs_from(add_output(acc, ws[0]), ws.skip(1))
    }
}

/// The distinct outputs of the given workspaces, in first-appearance
/// order. Workspaces not assigned to any output are not represented.
pub open spec fn spec_outputs(ws: Seq<WorkspaceV>) -> Seq<Seq<char>> {
    outputs_from(Seq::empty(), ws)
}

/// How many workspaces sit on the given output.
pub open spec fn spec_count_ws(ws: Seq<WorkspaceV>, o: Seq<char>) -> nat
    decreases ws.len(),
{
    if ws.len() == 0 {
        0
    } else {
        (if ws[0].output == Some(o) {
            1nat
        } else {
            0nat
        }) + spec_count_ws(ws.skip(1), o)
    }
}

/// The first workspace on the given output that is marked active, if any.
pub open spec fn spec_active_ws(ws: Seq<WorkspaceV>, o: Seq<char>) -> Option<WorkspaceV>
    decreases ws.len(),
{
    if ws.len() == 0 {
        None
    } else if ws[0].output == Some(o) && ws[0].is_active {
        Some(ws[0])
    } else {
        spec_active_ws(ws.skip(1), o)
    }
}

/// The workspace entries for the given outputs: for each, the active
/// workspace's index and the workspace count — or the first output that
/// has no active workspace.
pub open spec fn spec_workspaces_info(
    ws: Seq<WorkspaceV>,
    outs: Seq<Seq<char>>,
) -> Result<Seq<(Seq<char>, WorkspaceInfo)>, Seq<char>>
    decreases outs.len(),
{
    if outs.len() == 0 {
        Ok(Seq::empty())
    } else {
        match spec_active_ws(ws, outs[0]) {
            Some(a) => match spec_workspaces_info(ws, outs.skip(1)) {
                Ok(rest) => Ok(
                    seq![
                        (
                            outs[0],
                            WorkspaceInfo {
                                active_workspace: a.idx,
                                nof_workspaces: spec_count_ws(ws, outs[0]) as u64,
                            },
                        ),
                    ] + rest,
                ),
                Err(o) => Err(o),
            },
            None => Err(outs[0]),
        }
    }
}

/// How many windows sit on the workspace with the given id.
pub open spec fn spec_count_win(ws: Seq<Window>, wid: u64) -> nat
    decreases ws.len(),
{
    if ws.len() == 0 {
        0
    } else {
        (if ws[0].workspace_id == Some(wid) {
            1nat
        } else {
            0nat
        }) + spec_count_win(ws.skip(1), wid)
    }
}

/// The first focused window on the workspace with the given id, if any.
pub open spec fn spec_focused_win(ws: Seq<Window>, wid: u64) -> Option<Window>
    decreases ws.len(),
{
    if ws.len() == 0 {
        None
    } else if ws[0].workspace_id == Some(wid) && ws[0].is_focused {
        Some(ws[0])
    } else {
        spec_focused_win(ws.skip(1), wid)
    }
}

/// The window entry of one active workspace.
pub open spec fn spec_win_info(ws: Seq<Window>, wid: u64) -> WorkspaceWindowsInfo {
    match spec_focused_win(ws, wid) {
        Some(w) => WorkspaceWindowsInfo {
            focused_window: match w.layout.pos_in_scrolling_layout {
                Some(p) => Some(p.x),
                None => None,
            },
            focused_window_floating: Some(w.is_floating),
            nof_windows: spec_count_win(ws, wid) as usize,
        },
        None => WorkspaceWindowsInfo {
            focused_window: None,
            focused_window_floating: None,
            nof_windows: spec_count_win(ws, wid) as usize,
        },
    }
}

/// The window entries for the given outputs, one per output, each about
/// that output's active workspace. Meaningful when every output has one.
pub open spec fn spec_windows_info(
    wins: Seq<Window>,
    ws: Seq<WorkspaceV>,
    outs: Seq<Seq<char>>,
) -> Seq<(Seq<char>, WorkspaceWindowsInfo)>
    decreases outs.len(),
{
    if outs.len() == 0 {
        Seq::empty()
    } else {
        let head = match spec_active_ws(ws, outs[0]) {
            Some(a) => seq![(outs[0], spec_win_info(wins, a.id))],
            None => Seq::empty(),
        };
        head + spec_windows_info(wins, ws, outs.skip(1))
    }
}

/// The whole projection of a state, or the first output that is missing
/// an active workspace.
pub open spec fn spec_state_info(s: EventStreamStateV) -> Result<StateInfoV, Seq<char>> {
    let outs = spec_outputs(s.workspaces);
    match spec_workspaces_info(s.workspaces, outs) {
        Ok(wsinfo) => Ok(
            StateInfoV { workspaces: wsinfo, windows: spec_windows_info(s.windows, s.workspaces, outs) },
        ),
        Err(o) => Err(o),
    }
}

/// The view of a vector of outputs.
pub open spec fn outs_view(v: Seq<Vec<char>>) -> Seq<Seq<char>> {
    crate::model::chars_views(v)
}

/// Whether the accumulated output list already holds the given output.
pub(crate) fn outputs_contain(acc: &Vec<Vec<char>>, o: &Vec<char>) -> (r: bool)
    ensures
        r == outs_view(acc@).contains(o@),
{
    let mut i: usize = 0;
    while i < acc.len()
        invariant
            0 <= i <= acc.len(),
            forall|k: int| 0 <= k < i ==> outs_view(acc@)[k] != o@,
        decreases acc.len() - i,
    {
        if chars_eq(&acc[i], o) {
            proof {
                assert(outs_view(acc@)[i as int] == o@);
            }
            return true;
        }
        i += 1;
    }
    proof {
        if outs_view(acc@).contains(o@) {
            let k = choose|k: int| 0 <= k < outs_view(acc@).len() && outs_view(acc@)[k] == o@;
            assert(outs_view(acc@)[k] != o@);
        }
    }
    false
}

/// Collects the distinct outputs of the workspaces, in first-appearance
/// order.
pub(crate) fn compute_outputs(ws: &Vec<Workspace>) -> (r: Vec<Vec<char>>)
    ensures
        outs_view(r@) == spec_outputs(ws_views(ws@)),
{
    let ghost wsv = ws_views(ws@);
    let mut acc: Vec<Vec<char>> = Vec::new();
    let mut i: usize = 0;
    proof {
        assert(wsv.skip(0) =~= wsv);
        assert(outs_view(acc@) =~= Seq::<Seq<char>>::empty());
    }
    while i < ws.len()
        invariant
            0 <= i <= ws.len(),
            wsv == ws_views(ws@),
            wsv.len() == ws@.len(),
            spec_outputs(wsv) == outputs_from(outs_view(acc@), wsv.skip(i as int)),
        decreases ws.len() - i,
    {
        proof {
            assert(wsv.skip(i as int)[0] == wsv[i as int]);
            assert(wsv.skip(i as int).skip(1) =~= wsv.skip(i as int + 1));
            assert(wsv[i as int] == ws@[i as int]@);
        }
        let ghost accv0 = outs_view(acc@);
        match &ws[i].output {
            Some(o) => {
                proof {
                    assert(wsv[i as int].output == Some(o@));
                }
                if !outputs_contain(&acc, o) {
                    let co = chars_clone(o);
                    acc.push(co);
                    proof {
                        assert(outs_view(acc@) =~= accv0.push(o@));
                    }
                }
            },
            None => {},
        }
        proof {
            assert(outs_view(acc@) == add_output(accv0, wsv[i as int]));
        }
        i += 1;
    }
    proof {
        assert(wsv.skip(ws@.len() as int) =~= Seq::<WorkspaceV>::empty());
    }
    acc
}

/// Counts the workspaces on one output.
pub(crate) fn count_ws_on(ws: &Vec<Workspace>, o: &Vec<char>) -> (c: usize)
    ensures
        c == spec_count_ws(ws_views(ws@), o@),
{
    let ghost wsv = ws_views(ws@);
    let mut c: usize = 0;
    let mut i: usize = 0;
    proof {
        assert(wsv.skip(0) =~= wsv);
    }
    while i < ws.len()
        invariant
            0 <= i <= ws.len(),
            c <= i,
            wsv == ws_views(ws@),
            wsv.len() == ws@.len(),
            spec_count_ws(wsv, o@) == c + spec_count_ws(wsv.skip(i as int), o@),
        decreases ws.len() - i,
    {
        proof {
            assert(wsv.skip(i as int)[0] == wsv[i as int]);
            assert(wsv.skip(i as int).skip(1) =~= wsv.skip(i as int + 1));
            assert(wsv[i as int] == ws@[i as int]@);
        }
        let hit = match &ws[i].output {
            Some(wo) => chars_eq(wo, o),
            None => false,
        };
        if hit {
            c += 1;
        }
        i += 1;
    }
    proof {
        assert(wsv.skip(ws@.len() as int) =~= Seq::<WorkspaceV>::empty());
    }
    c
}

/// Finds the active workspace on one output, as an index into the vector.
pub(crate) fn find_active_on(ws: &Vec<Workspace>, o: &Vec<char>) -> (r: Option<usize>)
    ensures
        match r {
            Some(i) => i < ws@.len() && spec_active_ws(
                ws_views(ws@),
                o@,
            ) == Some(ws@[i as int]@),
            None => spec_active_ws(ws_views(ws@), o@) is None,
        },
{
    let ghost wsv = ws_views(ws@);
    let mut i: usize = 0;
    proof {
        assert(wsv.skip(0) =~= wsv);
    }
    while i < ws.len()
        invariant
            0 <= i <= ws.len(),
            wsv == ws_views(ws@),
            wsv.len() == ws@.len(),
            spec_active_ws(wsv, o@) == spec_active_ws(wsv.skip(i as int), o@),
        decreases ws.len() - i,
    {
        proof {
            assert(wsv.skip(i as int)[0] == wsv[i as int]);
            assert(wsv.skip(i as int).skip(1) =~= wsv.skip(i as int + 1));
            assert(wsv[i as int] == ws@[i as int]@);
        }
        let hit = match &ws[i].output {
            Some(wo) => chars_eq(wo, o) && ws[i].is_active,
            None => false,
        };
        if hit {
            return Some(i);
        }
        i += 1;
    }
    proof {
        assert(wsv.skip(ws@.len() as int) =~= Seq::<WorkspaceV>::empty());
    }
    None
}

/// Counts the windows on one workspace.
pub(crate) fn count_win_on(ws: &Vec<Window>, wid: u64) -> (c: usize)
    ensures
        c == spec_count_win(ws@, wid),
{
    let mut c: usize = 0;
    let mut i: usize = 0;
    proof {
        assert(ws@.skip(0) =~= ws@);
    }
    while i < ws.len()
        invariant
            0 <= i <= ws.len(),
            c <= i,
            spec_count_win(ws@, wid) == c + spec_count_win(ws@.skip(i as int), wid),
        decreases ws.len() - i,
    {
        proof {
            assert(ws@.skip(i as int)[0] == ws@[i as int]);
            assert(ws@.skip(i as int).skip(1) =~= ws@.skip(i as int + 1));
        }
        let hit = match ws[i].workspace_id {
            Some(w) => w == wid,
            None => false,
        };
        if hit {
            c += 1;
        }
        i += 1;
    }
    proof {
        assert(ws@.skip(ws@.len() as int) =~= Seq::<Window>::empty());
    }
    c
}

/// Finds the first focused window on one workspace.
pub(crate) fn find_focused_on(ws: &Vec<Window>, wid: u64) -> (r: Option<Window>)
    ensures
        r == spec_focused_win(ws@, wid),
{
    let mut i: usize = 0;
    proof {
        assert(ws@.skip(0) =~= ws@);
    }
    while i < ws.len()
        invariant
            0 <= i <= ws.len(),
            spec_focused_win(ws@, wid) == spec_focused_win(ws@.skip(i as int), wid),
        decreases ws.len() - i,
    {
        proof {
            assert(ws@.skip(i as int)[0] == ws@[i as int]);
            assert(ws@.skip(i as int).skip(1) =~= ws@.skip(i as int + 1));
        }
        let hit = match ws[i].workspace_id {
            Some(w) => w == wid && ws[i].is_focused,
            None => false,
        };
        if hit {
            return Some(ws[i]);
        }
        i += 1;
    }
    proof {
        assert(ws@.skip(ws@.len() as int) =~= Seq::<Window>::empty());
    }
    None
}

/// The window entry of one active workspace.
pub(crate) fn win_info(ws: &Vec<Window>, wid: u64) -> (r: WorkspaceWindowsInfo)
    ensures
        r == spec_win_info(ws@, wid),
{
    let nof_windows = count_win_on(ws, wid);
    match find_focused_on(ws, wid) {
        Some(w) => WorkspaceWindowsInfo {
            focused_window: match w.layout.pos_in_scrolling_layout {
                Some(p) => Some(p.x),
                None => None,
            },
            focused_window_floating: Some(w.is_floating),
            nof_windows,
        },
        None => WorkspaceWindowsInfo {
            focused_window: None,
            focused_window_floating: None,
            nof_windows,
        },
    }
}

impl EventStreamState {
    /// Computes the consumer's view model from current state: per output,
    /// the active workspace's 1-based index and the workspace count, and
    /// the focused window and window count of that active workspace. Fails
    /// with [`StateInfoError::MissingActiveWorkspace`] exactly when some
    /// output has workspaces but none is marked active.
    pub fn state_info(&self) -> (r: Result<StateInfo, StateInfoError>)
        ensures
            match r {
                Ok(si) => spec_state_info(self@) == Ok::<StateInfoV, Seq<char>>(si@),
                Err(StateInfoError::MissingActiveWorkspace { output }) => spec_state_info(self@)
                    == Err::<StateInfoV, Seq<char>>(output@),
            },
    {
        let ghost wsv = self@.workspaces;
        let ghost winv = self@.windows;
        let outs = compute_outputs(&self.workspaces.workspaces);
        let ghost outsv = outs_view(outs@);
        let mut ws_infos: Vec<(Vec<char>, WorkspaceInfo)> = Vec::new();
        let mut win_infos: Vec<(Vec<char>, WorkspaceWindowsInfo)> = Vec::new();
        let mut j: usize = 0;
        proof {
            assert(outsv.skip(0) =~= outsv);
            assert(ws_infos_view(ws_infos@)
                =~= Seq::<(Seq<char>, WorkspaceInfo)>::empty());
            assert(win_infos_view(win_infos@)
                =~= Seq::<(Seq<char>, WorkspaceWindowsInfo)>::empty());
        }
        while j < outs.len()
            invariant
                0 <= j <= outs.len(),
                outsv == outs_view(outs@),
                outsv == spec_outputs(wsv),
                outsv.len() == outs@.len(),
                wsv == self@.workspaces,
                winv == self@.windows,
                spec_workspaces_info(wsv, outsv) == (match spec_workspaces_info(
                    wsv,
                    outsv.skip(j as int),
                ) {
                    Ok(rest) => Ok::<Seq<(Seq<char>, WorkspaceInfo)>, Seq<char>>(
                        ws_infos_view(ws_infos@) + rest,
                    ),
                    Err(o) => Err(o),
                }),
                spec_windows_info(winv, wsv, outsv) == win_infos_view(win_infos@)
                    + spec_windows_info(winv, wsv, outsv.skip(j as int)),
            decreases outs.len() - j,
        {
            proof {
                assert(outsv.skip(j as int)[0] == outsv[j as int]);
                assert(outsv.skip(j as int).skip(1) =~= outsv.skip(j as int + 1));
                assert(outsv[j as int] == outs@[j as int]@);
            }
            let o = &outs[j];
            let ghost wsi0 = ws_infos_view(ws_infos@);
            let ghost wini0 = win_infos_view(win_infos@);
            match find_active_on(&self.workspaces.workspaces, o) {
                Some(ai) => {
                    let a = &self.workspaces.workspaces[ai];
                    let count = count_ws_on(&self.workspaces.workspaces, o);
                    let info = WorkspaceInfo {
                        active_workspace: a.idx,
                        nof_workspaces: count as u64,
                    };
                    let wi = win_info(&self.windows.windows, a.id);
                    ws_infos.push((chars_clone(o), info));
                    win_infos.push((chars_clone(o), wi));
                    proof {
                        assert(ws_infos_view(ws_infos@) =~= wsi0.push((outsv[j as int], info)));
                        assert(win_infos_view(win_infos@) =~= wini0.push((outsv[j as int], wi)));
                        assert(wsi0.push((outsv[j as int], info)) =~= wsi0 + seq![
                            (outsv[j as int], info),
                        ]);
                        assert(wini0.push((outsv[j as int], wi)) =~= wini0 + seq![
                            (outsv[j as int], wi),
                        ]);
                        assert(spec_active_ws(wsv, outsv[j as int]) == Some(a@));
                        assert(a@.idx == info.active_workspace);
                        if spec_workspaces_info(wsv, outsv.skip(j as int + 1)) is Ok {
                            let rest = spec_workspaces_info(
                                wsv,
                                outsv.skip(j as int + 1),
                            )->Ok_0;
                            assert((wsi0 + seq![(outsv[j as int], info)]) + rest =~= wsi0 + (seq![
                                (outsv[j as int], info),
                            ] + rest));
                        }
                        assert((wini0 + seq![(outsv[j as int], wi)]) + spec_windows_info(
                            winv,
                            wsv,
                            outsv.skip(j as int + 1),
                        ) =~= wini0 + (seq![(outsv[j as int], wi)] + spec_windows_info(
                            winv,
                            wsv,
                            outsv.skip(j as int + 1),
                        )));
                    }
                },
                None => {
                    proof {
                        assert(spec_workspaces_info(wsv, outsv.skip(j as int)) == Err::<
                            Seq<(Seq<char>, WorkspaceInfo)>,
                            Seq<char>,
                        >(outsv[j as int]));
                        assert(outsv == spec_outputs(wsv));
                        assert(spec_workspaces_info(wsv, outsv) == Err::<
                            Seq<(Seq<char>, WorkspaceInfo)>,
                            Seq<char>,
                        >(outsv[j as int]));
                        assert(spec_state_info(self@) == Err::<StateInfoV, Seq<char>>(
                            outsv[j as int],
                        ));
                    }
                    return Err(StateInfoError::MissingActiveWorkspace { output: chars_clone(o) });
                },
            }
            j += 1;
        }
        proof {
            assert(outsv.skip(outs@.len() as int) =~= Seq::<Seq<char>>::empty());
            assert(ws_infos_view(ws_infos@)
                + Seq::<(Seq<char>, WorkspaceInfo)>::empty() =~= ws_infos_view(ws_infos@));
            assert(win_infos_view(win_infos@)
                + Seq::<(Seq<char>, WorkspaceWindowsInfo)>::empty() =~= win_infos_view(win_infos@));
        }
        Ok(StateInfo { workspaces: ws_infos, windows: win_infos })
    }
}

/// Producing the view model the consumer prints.
pub trait PrintStateInfo {
    /// The state the projection is derived from.
    spec fn projection_state(&self) -> EventStreamStateV;

    /// Computes the info that is handed to the external printer: the
    /// projection of the current state, or the first output missing an
    /// active workspace.
    fn print_state_info(&self) -> (r: Result<StateInfo, StateInfoError>)
        ensures
            match r {
                Ok(si) => spec_state_info(self.projection_state()) == Ok::<StateInfoV, Seq<char>>(
                    si@,
                ),
                Err(StateInfoError::MissingActiveWorkspace { output }) => spec_state_info(
                    self.projection_state(),
                ) == Err::<StateInfoV, Seq<char>>(output@),
            },
    ;
}

impl PrintStateInfo for EventStreamState {
    open spec fn projection_state(&self) -> EventStreamStateV {
        self@
    }

    fn print_state_info(&self) -> (r: Result<StateInfo, StateInfoError>) {
        self.state_info()
    }
}

} // verus!
