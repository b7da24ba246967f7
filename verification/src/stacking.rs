//! The projection used by the window-stacking consumer: per output, the
//! active workspace and the 1-based workspace index list, and — for the
//! active workspace — the ids of the windows at the top of each column of
//! the scrolling layout, ordered by column, plus the topmost id of the
//! column holding the focused window.

use vstd::prelude::*;

use crate::api::{outs_view, spec_active_ws, spec_count_ws, spec_outputs, StateInfoError};
use crate::model::{chars_clone, EventStreamState, EventStreamStateV, Window, Workspace};

verus! {

/// Per-output workspace information.
#[derive(Debug)]
pub struct WorkspaceInfo {
    /// The 1-based index of the active workspace on this output.
    pub active_workspace: u8,
    /// The 1-based indices of all workspaces of this output.
    pub workspaces: Vec<u8>,
}

/// Mathematical view of [`WorkspaceInfo`].
#[verifier::ext_equal]
pub ghost struct WorkspaceInfoV {
    pub active_workspace: u8,
    pub workspaces: Seq<u8>,
}

impl View for WorkspaceInfo {
    type V = WorkspaceInfoV;

    open spec fn view(&self) -> WorkspaceInfoV {
        WorkspaceInfoV { active_workspace: self.active_workspace, workspaces: self.workspaces@ }
    }
}

/// Per-output window information, about the output's active workspace.
#[derive(Debug)]
pub struct WorkspaceWindowsInfo {
    /// The id of the topmost window of the column holding the focused
    /// window, if a laid-out window is focused.
    pub focused_window_id: Option<u64>,
    /// The ids of the topmost windows of the columns, by column position.
    pub window_ids: Vec<u64>,
}

/// Mathematical view of [`WorkspaceWindowsInfo`].
#[verifier::ext_equal]
pub ghost struct WorkspaceWindowsInfoV {
    pub focused_window_id: Option<u64>,
    pub window_ids: Seq<u64>,
}

impl View for WorkspaceWindowsInfo {
    type V = WorkspaceWindowsInfoV;

    open spec fn view(&self) -> WorkspaceWindowsInfoV {
        WorkspaceWindowsInfoV {
            focused_window_id: self.focused_window_id,
            window_ids: self.window_ids@,
        }
    }
}

/// The full view model: one entry per output, in the order the outputs
/// first appear in the workspaces facet.
#[derive(Debug)]
pub struct StateInfo {
    pub workspaces: Vec<(Vec<char>, WorkspaceInfo)>,
    pub windows: Vec<(Vec<char>, WorkspaceWindowsInfo)>,
}

/// Mathematical view of [`StateInfo`].
#[verifier::ext_equal]
pub ghost struct StateInfoV {
    pub workspaces: Seq<(Seq<char>, WorkspaceInfoV)>,
    pub windows: Seq<(Seq<char>, WorkspaceWindowsInfoV)>,
}

/// The views of the per-output workspace entries.
pub open spec fn ws_entries_view(v: Seq<(Vec<char>, WorkspaceInfo)>) -> Seq<
    (Seq<char>, WorkspaceInfoV),
> {
    v.map_values(|p: (Vec<char>, WorkspaceInfo)| (p.0@, p.1@))
}

/// The views of the per-output window entries.
pub open spec fn win_entries_view(v: Seq<(Vec<char>, WorkspaceWindowsInfo)>) -> Seq<
    (Seq<char>, WorkspaceWindowsInfoV),
> {
    v.map_values(|p: (Vec<char>, WorkspaceWindowsInfo)| (p.0@, p.1@))
}

impl View for StateInfo {
    type V = StateInfoV;

    open spec fn view(&self) -> StateInfoV {
        StateInfoV {
            workspaces: ws_entries_view(self.workspaces@),
            windows: win_entries_view(self.windows@),
        }
    }
}

/// The column of a laid-out window.
pub open spec fn pos_x(w: Window) -> usize {
    match w.layout.pos_in_scrolling_layout {
        Some(p) => p.x,
        None => 0,
    }
}

/// The row of a laid-out window within its column.
pub open spec fn pos_y(w: Window) -> usize {
    match w.layout.pos_in_scrolling_layout {
        Some(p) => p.y,
        None => 0,
    }
}

/// The windows of the given workspace that carry a layout position, in
/// their stored order.
pub open spec fn spec_positioned(ws: Seq<Window>, wid: u64) -> Seq<Window>
    decreases ws.len(),
{
    if ws.len() == 0 {
        Seq::empty()
    } else {
        let rest = spec_positioned(ws.skip(1), wid);
        if ws[0].workspace_id == Some(wid) && ws[0].layout.pos_in_scrolling_layout is Some {
            seq![ws[0]] + rest
        } else {
            rest
        }
    }
}

/// Inserts a column position into an ascending list of distinct columns.
pub open spec fn insert_x(xs: Seq<usize>, x: usize) -> Seq<usize>
    decreases xs.len(),
{
    if xs.len() == 0 {
        seq![x]
    } else if x < xs[0] {
        seq![x] + xs
    } else if x == xs[0] {
        xs
    } else {
        seq![xs[0]] + insert_x(xs.skip(1), x)
    }
}

/// The distinct columns of the given windows, ascending, continuing from
/// an accumulator.
pub open spec fn xs_from(acc: Seq<usize>, ws: Seq<Window>) -> Seq<usize>
    decreases ws.len(),
{
    if ws.len() == 0 {
        acc
    } else {
        xs_from(insert_x(acc, pos_x(ws[0])), ws.skip(1))
    }
}

/// Inserts a window into a column sorted by row, after every window on
/// the same or an earlier row: windows on equal rows keep their stored
/// order.
pub open spec fn insert_by_y(col: Seq<Window>, w: Window) -> Seq<Window>
    decreases col.len(),
{
    if col.len() == 0 {
        seq![w]
    } else if pos_y(col[0]) <= pos_y(w) {
        seq![col[0]] + insert_by_y(col.skip(1), w)
    } else {
        seq![w] + col
    }
}

/// The column at position `x`: its windows sorted by row, ties kept in
/// stored order, continuing from an accumulator.
pub open spec fn column_from(acc: Seq<Window>, ws: Seq<Window>, x: usize) -> Seq<Window>
    decreases ws.len(),
{
    if ws.len() == 0 {
        acc
    } else {
        column_from(
            if pos_x(ws[0]) == x {
                insert_by_y(acc, ws[0])
            } else {
                acc
            },
            ws.skip(1),
            x,
        )
    }
}

/// The column at position `x` of the given laid-out windows.
pub open spec fn spec_column(ws: Seq<Window>, x: usize) -> Seq<Window> {
    column_from(Seq::empty(), ws, x)
}

/// Whether some window of the column is focused.
pub open spec fn col_has_focused(col: Seq<Window>) -> bool {
    exists|i: int| 0 <= i < col.len() && col[i].is_focused
}

/// The topmost ids of the columns, by ascending column position.
pub open spec fn spec_window_ids(pos: Seq<Window>, xs: Seq<usize>) -> Seq<u64>
    decreases xs.len(),
{
    if xs.len() == 0 {
        Seq::empty()
    } else {
        let col = spec_column(pos, xs[0]);
        (if col.len() > 0 {
            seq![col[0].id]
        } else {
            Seq::empty()
        }) + spec_window_ids(pos, xs.skip(1))
    }
}

/// The topmost id of the first column holding a focused window, if any.
pub open spec fn spec_focused_topmost(pos: Seq<Window>, xs: Seq<usize>) -> Option<u64>
    decreases xs.len(),
{
    if xs.len() == 0 {
        None
    } else {
        let col = spec_column(pos, xs[0]);
        if col_has_focused(col) && col.len() > 0 {
            Some(col[0].id)
        } else {
            spec_focused_topmost(pos, xs.skip(1))
        }
    }
}

/// The window entry of one active workspace.
pub open spec fn spec_win_entry(wins: Seq<Window>, wid: u64) -> WorkspaceWindowsInfoV {
    let pos = spec_positioned(wins, wid);
    let xs = xs_from(Seq::empty(), pos);
    WorkspaceWindowsInfoV {
        focused_window_id: spec_focused_topmost(pos, xs),
        window_ids: spec_window_ids(pos, xs),
    }
}

/// The 1-based index list `1..=n`.
pub open spec fn spec_one_to(n: nat) -> Seq<u8> {
    Seq::new(n, |i: int| (i + 1) as u8)
}

/// The workspace entries for the given outputs — or the first output
/// that has no active workspace.
pub open spec fn spec_ws_entries(
    ws: Seq<crate::model::WorkspaceV>,
    outs: Seq<Seq<char>>,
) -> Result<Seq<(Seq<char>, WorkspaceInfoV)>, Seq<char>>
    decreases outs.len(),
{
    if outs.len() == 0 {
        Ok(Seq::empty())
    } else {
        match spec_active_ws(ws, outs[0]) {
            Some(a) => match spec_ws_entries(ws, outs.skip(1)) {
                Ok(rest) => Ok(
                    seq![
                        (
                            outs[0],
                            WorkspaceInfoV {
                                active_workspace: a.idx,
                                workspaces: spec_one_to(spec_count_ws(ws, outs[0])),
                            },
                        ),
                    ] + rest,
                ),
                Err(o) => Err(o),
            },
            None => Err(outs[0]),
        }
    }
}

/// The window entries for the given outputs, each about that output's
/// active workspace.
pub open spec fn spec_win_entries(
    wins: Seq<Window>,
    ws: Seq<crate::model::WorkspaceV>,
    outs: Seq<Seq<char>>,
) -> Seq<(Seq<char>, WorkspaceWindowsInfoV)>
    decreases outs.len(),
{
    if outs.len() == 0 {
        Seq::empty()
    } else {
        let head = match spec_active_ws(ws, outs[0]) {
            Some(a) => seq![(outs[0], spec_win_entry(wins, a.id))],
            None => Seq::empty(),
        };
        head + spec_win_entries(wins, ws, outs.skip(1))
    }
}

/// The whole stacking projection of a state, or the first output that is
/// missing an active workspace.
pub open spec fn spec_stacking_info(s: EventStreamStateV) -> Result<StateInfoV, Seq<char>> {
    let outs = spec_outputs(s.workspaces);
    match spec_ws_entries(s.workspaces, outs) {
        Ok(entries) => Ok(
            StateInfoV { workspaces: entries, windows: spec_win_entries(s.windows, s.workspaces, outs) },
        ),
        Err(o) => Err(o),
    }
}

/// Whether every output's workspace count fits the 1-based index list of
/// the stacking view model. This bounds each output's own count, never
/// the total: workspaces spread over several outputs may well exceed it.
pub open spec fn spec_counts_fit(ws: Seq<crate::model::WorkspaceV>) -> bool {
    forall|k: int|
        0 <= k < spec_outputs(ws).len() ==> spec_count_ws(
            ws,
            #[trigger] spec_outputs(ws)[k],
        ) <= 255
}

impl EventStreamState {
    /// Decides [`spec_counts_fit`] at run time: whether every output's
    /// workspace count fits the stacking view model's index list. A
    /// consumer checks this before projecting, and treats a failure as the
    /// machine limit it is.
    pub fn stacking_counts_fit(&self) -> (r: bool)
        ensures
            r == spec_counts_fit(self@.workspaces),
    {
        let ghost wsv = self@.workspaces;
        let outs = crate::api::compute_outputs(&self.workspaces.workspaces);
        let ghost outsv = outs_view(outs@);
        let mut j: usize = 0;
        while j < outs.len()
            invariant
                0 <= j <= outs.len(),
                outsv == outs_view(outs@),
                outsv == spec_outputs(wsv),
                outsv.len() == outs@.len(),
                wsv == self@.workspaces,
                forall|k: int| 0 <= k < j ==> spec_count_ws(wsv, #[trigger] outsv[k]) <= 255,
            decreases outs.len() - j,
        {
            proof {
                assert(outsv[j as int] == outs@[j as int]@);
            }
            let count = crate::api::count_ws_on(&self.workspaces.workspaces, &outs[j]);
            if count > 255 {
                proof {
                    assert(spec_count_ws(wsv, spec_outputs(wsv)[j as int]) > 255);
                }
                return false;
            }
            j += 1;
        }
        true
    }
}

/// The column of a laid-out window.
fn pos_x_of(w: &Window) -> (r: usize)
    ensures
        r == pos_x(*w),
{
    match w.layout.pos_in_scrolling_layout {
        Some(p) => p.x,
        None => 0,
    }
}

/// The row of a laid-out window.
fn pos_y_of(w: &Window) -> (r: usize)
    ensures
        r == pos_y(*w),
{
    match w.layout.pos_in_scrolling_layout {
        Some(p) => p.y,
        None => 0,
    }
}

/// The laid-out windows of one workspace, in stored order.
fn positioned_windows(ws: &Vec<Window>, wid: u64) -> (r: Vec<Window>)
    ensures
        r@ == spec_positioned(ws@, wid),
{
    let mut r: Vec<Window> = Vec::new();
    let mut i: usize = 0;
    proof {
        assert(ws@.skip(0) =~= ws@);
        assert(r@ + spec_positioned(ws@, wid) =~= spec_positioned(ws@, wid));
    }
    while i < ws.len()
        invariant
            0 <= i <= ws.len(),
            spec_positioned(ws@, wid) == r@ + spec_positioned(ws@.skip(i as int), wid),
        decreases ws.len() - i,
    {
        proof {
            assert(ws@.skip(i as int)[0] == ws@[i as int]);
            assert(ws@.skip(i as int).skip(1) =~= ws@.skip(i as int + 1));
        }
        let hit = match (ws[i].workspace_id, ws[i].layout.pos_in_scrolling_layout) {
            (Some(w), Some(_)) => w == wid,
            _ => false,
        };
        let ghost r0 = r@;
        if hit {
            r.push(ws[i]);
            proof {
                assert(r@ =~= r0 + seq![ws@[i as int]]);
                assert((r0 + seq![ws@[i as int]]) + spec_positioned(ws@.skip(i as int + 1), wid)
                    =~= r0 + (seq![ws@[i as int]] + spec_positioned(ws@.skip(i as int + 1), wid)));
            }
        }
        i += 1;
    }
    proof {
        assert(ws@.skip(ws@.len() as int) =~= Seq::<Window>::empty());
        assert(r@ + Seq::<Window>::empty() =~= r@);
    }
    r
}

/// Inserts a column position, keeping the list ascending and distinct.
fn insert_x_exec(xs: &mut Vec<usize>, x: usize)
    ensures
        final(xs)@ == insert_x(old(xs)@, x),
{
    let ghost xs0 = xs@;
    let mut k: usize = 0;
    proof {
        assert(xs0.skip(0) =~= xs0);
        assert(xs0.subrange(0, 0) + insert_x(xs0, x) =~= insert_x(xs0, x));
    }
    while k < xs.len() && xs[k] < x
        invariant
            0 <= k <= xs0.len(),
            xs@ == xs0,
            insert_x(xs0, x) == xs0.subrange(0, k as int) + insert_x(xs0.skip(k as int), x),
        decreases xs0.len() - k,
    {
        proof {
            assert(xs0.skip(k as int)[0] == xs0[k as int]);
            assert(xs0.skip(k as int).skip(1) =~= xs0.skip(k as int + 1));
            assert(insert_x(xs0.skip(k as int), x) == seq![xs0[k as int]] + insert_x(
                xs0.skip(k as int + 1),
                x,
            ));
            assert(xs0.subrange(0, k as int) + (seq![xs0[k as int]] + insert_x(
                xs0.skip(k as int + 1),
                x,
            )) =~= xs0.subrange(0, k as int + 1) + insert_x(xs0.skip(k as int + 1), x));
        }
        k += 1;
    }
    if k == xs.len() {
        proof {
            assert(xs0.skip(k as int) =~= Seq::<usize>::empty());
            assert(insert_x(xs0.skip(k as int), x) == seq![x]);
        }
        xs.push(x);
        proof {
            assert(xs@ =~= xs0.subrange(0, k as int) + seq![x]);
        }
    } else if xs[k] == x {
        proof {
            assert(xs0.skip(k as int)[0] == xs0[k as int]);
            assert(insert_x(xs0.skip(k as int), x) == xs0.skip(k as int));
            assert(xs0.subrange(0, k as int) + xs0.skip(k as int) =~= xs0);
        }
    } else {
        proof {
            assert(xs0.skip(k as int)[0] == xs0[k as int]);
            assert(x < xs0[k as int]);
            assert(insert_x(xs0.skip(k as int), x) == seq![x] + xs0.skip(k as int));
        }
        xs.insert(k, x);
        proof {
            assert(xs@ =~= xs0.subrange(0, k as int) + (seq![x] + xs0.skip(k as int)));
        }
    }
}

/// The distinct columns of the laid-out windows, ascending.
fn collect_xs(pos: &Vec<Window>) -> (r: Vec<usize>)
    ensures
        r@ == xs_from(Seq::empty(), pos@),
{
    let mut r: Vec<usize> = Vec::new();
    let mut i: usize = 0;
    proof {
        assert(pos@.skip(0) =~= pos@);
        assert(r@ =~= Seq::<usize>::empty());
    }
    while i < pos.len()
        invariant
            0 <= i <= pos.len(),
            xs_from(Seq::empty(), pos@) == xs_from(r@, pos@.skip(i as int)),
        decreases pos.len() - i,
    {
        proof {
            assert(pos@.skip(i as int)[0] == pos@[i as int]);
            assert(pos@.skip(i as int).skip(1) =~= pos@.skip(i as int + 1));
        }
        let x = pos_x_of(&pos[i]);
        insert_x_exec(&mut r, x);
        i += 1;
    }
    proof {
        assert(pos@.skip(pos@.len() as int) =~= Seq::<Window>::empty());
    }
    r
}

/// Inserts a window into a column sorted by row, after every window on
/// the same or an earlier row.
fn insert_by_y_exec(col: &mut Vec<Window>, w: Window)
    ensures
        final(col)@ == insert_by_y(old(col)@, w),
{
    let ghost c0 = col@;
    let wy = pos_y_of(&w);
    let mut k: usize = 0;
    proof {
        assert(c0.skip(0) =~= c0);
        assert(c0.subrange(0, 0) + insert_by_y(c0, w) =~= insert_by_y(c0, w));
    }
    while k < col.len() && pos_y_of(&col[k]) <= wy
        invariant
            0 <= k <= c0.len(),
            col@ == c0,
            wy == pos_y(w),
            insert_by_y(c0, w) == c0.subrange(0, k as int) + insert_by_y(c0.skip(k as int), w),
        decreases c0.len() - k,
    {
        proof {
            assert(c0.skip(k as int)[0] == c0[k as int]);
            assert(c0.skip(k as int).skip(1) =~= c0.skip(k as int + 1));
            assert(insert_by_y(c0.skip(k as int), w) == seq![c0[k as int]] + insert_by_y(
                c0.skip(k as int + 1),
                w,
            ));
            assert(c0.subrange(0, k as int) + (seq![c0[k as int]] + insert_by_y(
                c0.skip(k as int + 1),
                w,
            )) =~= c0.subrange(0, k as int + 1) + insert_by_y(c0.skip(k as int + 1), w));
        }
        k += 1;
    }
    if k == col.len() {
        proof {
            assert(c0.skip(k as int) =~= Seq::<Window>::empty());
        }
        col.push(w);
        proof {
            assert(col@ =~= c0.subrange(0, k as int) + seq![w]);
        }
    } else {
        proof {
            assert(c0.skip(k as int)[0] == c0[k as int]);
            assert(insert_by_y(c0.skip(k as int), w) == seq![w] + c0.skip(k as int));
        }
        col.insert(k, w);
        proof {
            assert(col@ =~= c0.subrange(0, k as int) + (seq![w] + c0.skip(k as int)));
        }
    }
}

/// The column at one position, sorted by row, ties in stored order.
fn column_of(pos: &Vec<Window>, x: usize) -> (r: Vec<Window>)
    ensures
        r@ == spec_column(pos@, x),
{
    let mut r: Vec<Window> = Vec::new();
    let mut i: usize = 0;
    proof {
        assert(pos@.skip(0) =~= pos@);
        assert(r@ =~= Seq::<Window>::empty());
    }
    while i < pos.len()
        invariant
            0 <= i <= pos.len(),
            spec_column(pos@, x) == column_from(r@, pos@.skip(i as int), x),
        decreases pos.len() - i,
    {
        proof {
            assert(pos@.skip(i as int)[0] == pos@[i as int]);
            assert(pos@.skip(i as int).skip(1) =~= pos@.skip(i as int + 1));
        }
        if pos_x_of(&pos[i]) == x {
            insert_by_y_exec(&mut r, pos[i]);
        }
        i += 1;
    }
    proof {
        assert(pos@.skip(pos@.len() as int) =~= Seq::<Window>::empty());
    }
    r
}

/// Whether some window of the column is focused.
fn col_focused(col: &Vec<Window>) -> (r: bool)
    ensures
        r == col_has_focused(col@),
{
    let mut i: usize = 0;
    while i < col.len()
        invariant
            0 <= i <= col.len(),
            forall|k: int| 0 <= k < i ==> !col@[k].is_focused,
        decreases col.len() - i,
    {
        if col[i].is_focused {
            return true;
        }
        i += 1;
    }
    false
}

/// The window entry of one active workspace: topmost ids by column, and
/// the topmost id of the column holding the focused window.
fn win_entry(wins: &Vec<Window>, wid: u64) -> (r: WorkspaceWindowsInfo)
    ensures
        r@ == spec_win_entry(wins@, wid),
{
    let pos = positioned_windows(wins, wid);
    let xs = collect_xs(&pos);
    let mut window_ids: Vec<u64> = Vec::new();
    let mut focused: Option<u64> = None;
    let mut j: usize = 0;
    proof {
        assert(xs@.skip(0) =~= xs@);
        assert(window_ids@ + spec_window_ids(pos@, xs@) =~= spec_window_ids(pos@, xs@));
    }
    while j < xs.len()
        invariant
            0 <= j <= xs.len(),
            spec_window_ids(pos@, xs@) == window_ids@ + spec_window_ids(
                pos@,
                xs@.skip(j as int),
            ),
            match focused {
                None => spec_focused_topmost(pos@, xs@) == spec_focused_topmost(
                    pos@,
                    xs@.skip(j as int),
                ),
                Some(f) => spec_focused_topmost(pos@, xs@) == Some(f),
            },
        decreases xs.len() - j,
    {
        proof {
            assert(xs@.skip(j as int)[0] == xs@[j as int]);
            assert(xs@.skip(j as int).skip(1) =~= xs@.skip(j as int + 1));
        }
        let col = column_of(&pos, xs[j]);
        let ghost ids0 = window_ids@;
        if col.len() > 0 {
            window_ids.push(col[0].id);
            proof {
                assert(window_ids@ =~= ids0 + seq![col@[0].id]);
                assert((ids0 + seq![col@[0].id]) + spec_window_ids(pos@, xs@.skip(j as int + 1))
                    =~= ids0 + (seq![col@[0].id] + spec_window_ids(pos@, xs@.skip(j as int + 1))));
            }
        } else {
            proof {
                assert(ids0 + (Seq::<u64>::empty() + spec_window_ids(
                    pos@,
                    xs@.skip(j as int + 1),
                )) =~= ids0 + spec_window_ids(pos@, xs@.skip(j as int + 1)));
            }
        }
        if focused.is_none() && col.len() > 0 && col_focused(&col) {
            focused = Some(col[0].id);
        }
        j += 1;
    }
    proof {
        assert(xs@.skip(xs@.len() as int) =~= Seq::<usize>::empty());
        assert(window_ids@ + Seq::<u64>::empty() =~= window_ids@);
    }
    WorkspaceWindowsInfo { focused_window_id: focused, window_ids }
}

/// The 1-based index list `1..=n`.
fn one_to(n: u8) -> (r: Vec<u8>)
    ensures
        r@ == spec_one_to(n as nat),
{
    let mut r: Vec<u8> = Vec::new();
    let mut i: u8 = 0;
    while i < n
        invariant
            0 <= i <= n,
            r@.len() == i as nat,
            forall|k: int| 0 <= k < i ==> r@[k] == (k + 1) as u8,
        decreases n - i,
    {
        r.push(i + 1);
        i += 1;
    }
    proof {
        assert(r@ =~= spec_one_to(n as nat));
    }
    r
}

impl EventStreamState {
    /// Computes the stacking view model from current state. Fails with
    /// [`StateInfoError::MissingActiveWorkspace`] exactly when some output
    /// has workspaces but none is marked active. Each output's workspace
    /// count is reported as a 1-based index list, so no single output may
    /// hold more workspaces than that list can index; the total across
    /// outputs is unconstrained.
    pub fn stacking_info(&self) -> (r: Result<StateInfo, StateInfoError>)
        requires
            spec_counts_fit(self@.workspaces),
        ensures
            match r {
                Ok(si) => spec_stacking_info(self@) == Ok::<StateInfoV, Seq<char>>(si@),
                Err(StateInfoError::MissingActiveWorkspace { output }) => spec_stacking_info(
                    self@,
                ) == Err::<StateInfoV, Seq<char>>(output@),
            },
    {
        let ghost wsv = self@.workspaces;
        let ghost winv = self@.windows;
        let outs = crate::api::compute_outputs(&self.workspaces.workspaces);
        let ghost outsv = outs_view(outs@);
        let mut ws_entries: Vec<(Vec<char>, WorkspaceInfo)> = Vec::new();
        let mut win_entries: Vec<(Vec<char>, WorkspaceWindowsInfo)> = Vec::new();
        let mut j: usize = 0;
        proof {
            assert(outsv.skip(0) =~= outsv);
            assert(ws_entries_view(ws_entries@) =~= Seq::<(Seq<char>, WorkspaceInfoV)>::empty());
            assert(win_entries_view(win_entries@) =~= Seq::<
                (Seq<char>, WorkspaceWindowsInfoV),
            >::empty());
        }
        while j < outs.len()
            invariant
                0 <= j <= outs.len(),
                outsv == outs_view(outs@),
                outsv == spec_outputs(wsv),
                outsv.len() == outs@.len(),
                wsv == self@.workspaces,
                spec_counts_fit(wsv),
                winv == self@.windows,
                spec_ws_entries(wsv, outsv) == (match spec_ws_entries(
                    wsv,
                    outsv.skip(j as int),
                ) {
                    Ok(rest) => Ok::<Seq<(Seq<char>, WorkspaceInfoV)>, Seq<char>>(
                        ws_entries_view(ws_entries@) + rest,
                    ),
                    Err(o) => Err(o),
                }),
                spec_win_entries(winv, wsv, outsv) == win_entries_view(win_entries@)
                    + spec_win_entries(winv, wsv, outsv.skip(j as int)),
            decreases outs.len() - j,
        {
            proof {
                assert(outsv.skip(j as int)[0] == outsv[j as int]);
                assert(outsv.skip(j as int).skip(1) =~= outsv.skip(j as int + 1));
                assert(outsv[j as int] == outs@[j as int]@);
            }
            let o = &outs[j];
            let ghost wse0 = ws_entries_view(ws_entries@);
            let ghost wine0 = win_entries_view(win_entries@);
            match crate::api::find_active_on(&self.workspaces.workspaces, o) {
                Some(ai) => {
                    let a = &self.workspaces.workspaces[ai];
                    let count = crate::api::count_ws_on(&self.workspaces.workspaces, o);
                    proof {
                        assert(spec_count_ws(wsv, spec_outputs(wsv)[j as int]) <= 255);
                    }
                    let info = WorkspaceInfo {
                        active_workspace: a.idx,
                        workspaces: one_to(count as u8),
                    };
                    let wi = win_entry(&self.windows.windows, a.id);
                    let ghost infov = info@;
                    let ghost wiv = wi@;
                    ws_entries.push((chars_clone(o), info));
                    win_entries.push((chars_clone(o), wi));
                    proof {
                        assert(ws_entries_view(ws_entries@) =~= wse0.push(
                            (outsv[j as int], infov),
                        ));
                        assert(win_entries_view(win_entries@) =~= wine0.push(
                            (outsv[j as int], wiv),
                        ));
                        assert(wse0.push((outsv[j as int], infov)) =~= wse0 + seq![
                            (outsv[j as int], infov),
                        ]);
                        assert(wine0.push((outsv[j as int], wiv)) =~= wine0 + seq![
                            (outsv[j as int], wiv),
                        ]);
                        assert(spec_active_ws(wsv, outsv[j as int]) == Some(a@));
                        assert(infov =~= WorkspaceInfoV {
                            active_workspace: a@.idx,
                            workspaces: spec_one_to(spec_count_ws(wsv, outsv[j as int])),
                        });
                        if spec_ws_entries(wsv, outsv.skip(j as int + 1)) is Ok {
                            let rest = spec_ws_entries(wsv, outsv.skip(j as int + 1))->Ok_0;
                            assert((wse0 + seq![(outsv[j as int], infov)]) + rest =~= wse0 + (
                            seq![(outsv[j as int], infov)] + rest));
                        }
                        assert((wine0 + seq![(outsv[j as int], wiv)]) + spec_win_entries(
                            winv,
                            wsv,
                            outsv.skip(j as int + 1),
                        ) =~= wine0 + (seq![(outsv[j as int], wiv)] + spec_win_entries(
                            winv,
                            wsv,
                            outsv.skip(j as int + 1),
                        )));
                    }
                },
                None => {
                    proof {
                        assert(spec_ws_entries(wsv, outsv.skip(j as int)) == Err::<
                            Seq<(Seq<char>, WorkspaceInfoV)>,
                            Seq<char>,
                        >(outsv[j as int]));
                        assert(spec_stacking_info(self@) == Err::<StateInfoV, Seq<char>>(
                            outsv[j as int],
                        ));
                    }
                    return Err(StateInfoError::MissingActiveWorkspace { output: chars_clone(o) });
                },
            }
            j += 1;
        }
        proof {
            assert(outsv.skip(outs@.len() as int) =~= Seq::<Seq<char>>::empty());
            assert(ws_entries_view(ws_entries@) + Seq::<(Seq<char>, WorkspaceInfoV)>::empty()
                =~= ws_entries_view(ws_entries@));
            assert(win_entries_view(win_entries@) + Seq::<
                (Seq<char>, WorkspaceWindowsInfoV),
            >::empty() =~= win_entries_view(win_entries@));
        }
        Ok(StateInfo { workspaces: ws_entries, windows: win_entries })
    }
}

} // verus!
