//! The event-stream protocol: the subscription request, the handshake
//! reply, and the decoding of inbound event lines. One JSON object per
//! line, in the canonical shape the peer emits; any deviation is a decode
//! error, kept distinct from a clean end of the stream.

use vstd::prelude::*;

use crate::event::{Event, WindowLayoutChange};
use crate::json::{
    expect_lit, lit_at, p_bool, p_string, p_u64, p_u8, p_usize, sp_bool, sp_string, sp_u64, sp_u8,
    sp_usize,
};
use crate::model::{
    ws_views, KeyboardLayouts, KeyboardLayoutsV, ScrollPos, Window, WindowLayout, Workspace,
    WorkspaceV,
};

verus! {

/// Mathematical view of an event.
#[verifier::ext_equal]
pub ghost enum EventV {
    WorkspacesChanged { workspaces: Seq<WorkspaceV> },
    WorkspaceActivated { id: u64, focused: bool },
    WorkspaceUrgencyChanged { id: u64, urgent: bool },
    WorkspaceActiveWindowChanged { workspace_id: u64, active_window_id: Option<u64> },
    WindowsChanged { windows: Seq<Window> },
    WindowOpenedOrChanged { window: Window },
    WindowClosed { id: u64 },
    WindowFocusChanged { id: Option<u64> },
    WindowUrgencyChanged { id: u64, urgent: bool },
    WindowLayoutsChanged { changes: Seq<WindowLayoutChange> },
    KeyboardLayoutsChanged { keyboard_layouts: KeyboardLayoutsV },
    KeyboardLayoutSwitched { idx: u8 },
    OverviewOpenedOrClosed { is_open: bool },
    ConfigLoaded { failed: bool },
}

impl View for Event {
    type V = EventV;

    open spec fn view(&self) -> EventV {
        match self {
            Event::WorkspacesChanged { workspaces } => EventV::WorkspacesChanged {
                workspaces: ws_views(workspaces@),
            },
            Event::WorkspaceActivated { id, focused } => EventV::WorkspaceActivated {
                id: *id,
                focused: *focused,
            },
            Event::WorkspaceUrgencyChanged { id, urgent } => EventV::WorkspaceUrgencyChanged {
                id: *id,
                urgent: *urgent,
            },
            Event::WorkspaceActiveWindowChanged { workspace_id, active_window_id } => EventV::WorkspaceActiveWindowChanged {
                workspace_id: *workspace_id,
                active_window_id: *active_window_id,
            },
            Event::WindowsChanged { windows } => EventV::WindowsChanged { windows: windows@ },
            Event::WindowOpenedOrChanged { window } => EventV::WindowOpenedOrChanged {
                window: *window,
            },
            Event::WindowClosed { id } => EventV::WindowClosed { id: *id },
            Event::WindowFocusChanged { id } => EventV::WindowFocusChanged { id: *id },
            Event::WindowUrgencyChanged { id, urgent } => EventV::WindowUrgencyChanged {
                id: *id,
                urgent: *urgent,
            },
            Event::WindowLayoutsChanged { changes } => EventV::WindowLayoutsChanged {
                changes: changes@,
            },
            Event::KeyboardLayoutsChanged { keyboard_layouts } => EventV::KeyboardLayoutsChanged {
                keyboard_layouts: keyboard_layouts@,
            },
            Event::KeyboardLayoutSwitched { idx } => EventV::KeyboardLayoutSwitched { idx: *idx },
            Event::OverviewOpenedOrClosed { is_open } => EventV::OverviewOpenedOrClosed {
                is_open: *is_open,
            },
            Event::ConfigLoaded { failed } => EventV::ConfigLoaded { failed: *failed },
        }
    }
}

/// An optional number: `null` or a canonical decimal.
pub open spec fn sp_opt_u64(s: Seq<char>, i: int) -> Option<(Option<u64>, int)> {
    if lit_at(s, i, "null"@) {
        Some((None, i + "null"@.len()))
    } else {
        match sp_u64(s, i) {
            Some((v, j)) => Some((Some(v), j)),
            None => None,
        }
    }
}

/// Parses an optional number.
pub fn p_opt_u64(s: &Vec<char>, i: usize) -> (r: Option<(Option<u64>, usize)>)
    requires
        i <= s@.len(),
    ensures
        match r {
            Some((v, j)) => sp_opt_u64(s@, i as int) == Some((v, j as int)) && i <= j <= s@.len(),
            None => sp_opt_u64(s@, i as int) is None,
        },
{
    match expect_lit(s, i, "null") {
        Some(j) => Some((None, j)),
        None => match p_u64(s, i) {
            Some((v, j)) => Some((Some(v), j)),
            None => None,
        },
    }
}

/// An optional string: `null` or a string literal.
pub open spec fn sp_opt_string(s: Seq<char>, i: int) -> Option<(Option<Seq<char>>, int)> {
    if lit_at(s, i, "null"@) {
        Some((None, i + "null"@.len()))
    } else {
        match sp_string(s, i) {
            Some((v, j)) => Some((Some(v), j)),
            None => None,
        }
    }
}

/// Parses an optional string.
pub fn p_opt_string(s: &Vec<char>, i: usize) -> (r: Option<(Option<Vec<char>>, usize)>)
    requires
        i <= s@.len(),
    ensures
        match r {
            Some((v, j)) => sp_opt_string(s@, i as int) == Some(
                (
                    match v {
                        Some(c) => Some(c@),
                        None => None,
                    },
                    j as int,
                ),
            ) && i <= j <= s@.len(),
            None => sp_opt_string(s@, i as int) is None,
        },
{
    match expect_lit(s, i, "null") {
        Some(j) => Some((None, j)),
        None => match p_string(s, i) {
            Some((v, j)) => Some((Some(v), j)),
            None => None,
        },
    }
}

/// A layout object: the optional position as `null` or `[column,row]`.
pub open spec fn sp_layout(s: Seq<char>, i: int) -> Option<(WindowLayout, int)> {
    if !lit_at(s, i, "{\"pos_in_scrolling_layout\":"@) {
        None
    } else {
        let i1 = i + "{\"pos_in_scrolling_layout\":"@.len();
        if lit_at(s, i1, "null}"@) {
            Some(
                (
                    WindowLayout { pos_in_scrolling_layout: None },
                    i1 + "null}"@.len(),
                ),
            )
        } else if lit_at(s, i1, "["@) {
            match sp_usize(s, i1 + "["@.len()) {
                None => None,
                Some((x, i2)) => if !lit_at(s, i2, ","@) {
                    None
                } else {
                    match sp_usize(s, i2 + ","@.len()) {
                        None => None,
                        Some((y, i3)) => if lit_at(s, i3, "]}"@) {
                            Some(
                                (
                                    WindowLayout {
                                        pos_in_scrolling_layout: Some(ScrollPos { x, y }),
                                    },
                                    i3 + "]}"@.len(),
                                ),
                            )
                        } else {
                            None
                        },
                    }
                },
            }
        } else {
            None
        }
    }
}

/// Parses a layout object.
pub fn p_layout(s: &Vec<char>, i: usize) -> (r: Option<(WindowLayout, usize)>)
    requires
        i <= s@.len(),
    ensures
        match r {
            Some((v, j)) => sp_layout(s@, i as int) == Some((v, j as int)) && i <= j <= s@.len(),
            None => sp_layout(s@, i as int) is None,
        },
{
    let i1 = match expect_lit(s, i, "{\"pos_in_scrolling_layout\":") {
        Some(j) => j,
        None => {
            return None;
        },
    };
    match expect_lit(s, i1, "null}") {
        Some(j) => Some((WindowLayout { pos_in_scrolling_layout: None }, j)),
        None => {
            let i1b = match expect_lit(s, i1, "[") {
                Some(j) => j,
                None => {
                    return None;
                },
            };
            let (x, i2) = match p_usize(s, i1b) {
                Some(p) => p,
                None => {
                    return None;
                },
            };
            let i2b = match expect_lit(s, i2, ",") {
                Some(j) => j,
                None => {
                    return None;
                },
            };
            let (y, i3) = match p_usize(s, i2b) {
                Some(p) => p,
                None => {
                    return None;
                },
            };
            match expect_lit(s, i3, "]}") {
                Some(j) => Some(
                    (WindowLayout { pos_in_scrolling_layout: Some(ScrollPos { x, y }) }, j),
                ),
                None => None,
            }
        },
    }
}

/// A workspace object, fields in canonical order.
pub open spec fn sp_workspace(s: Seq<char>, i: int) -> Option<(WorkspaceV, int)> {
    if !lit_at(s, i, "{\"id\":"@) {
        None
    } else {
        match sp_u64(s, i + "{\"id\":"@.len()) {
            None => None,
            Some((id, a)) => if !lit_at(s, a, ",\"idx\":"@) {
                None
            } else {
                match sp_u8(s, a + ",\"idx\":"@.len()) {
                    None => None,
                    Some((idx, b)) => if !lit_at(s, b, ",\"output\":"@) {
                        None
                    } else {
                        match sp_opt_string(s, b + ",\"output\":"@.len()) {
                            None => None,
                            Some((output, c)) => if !lit_at(s, c, ",\"is_active\":"@) {
                                None
                            } else {
                                match sp_bool(s, c + ",\"is_active\":"@.len()) {
                                    None => None,
                                    Some((is_active, d)) => if !lit_at(s, d, ",\"is_focused\":"@) {
                                        None
                                    } else {
                                        match sp_bool(s, d + ",\"is_focused\":"@.len()) {
                                            None => None,
                                            Some((is_focused, e)) => if !lit_at(
                                                s,
                                                e,
                                                ",\"is_urgent\":"@,
                                            ) {
                                                None
                                            } else {
                                                match sp_bool(s, e + ",\"is_urgent\":"@.len()) {
                                                    None => None,
                                                    Some((is_urgent, f)) => if !lit_at(
                                                        s,
                                                        f,
                                                        ",\"active_window_id\":"@,
                                                    ) {
                                                        None
                                                    } else {
                                                        match sp_opt_u64(
                                                            s,
                                                            f + ",\"active_window_id\":"@.len(),
                                                        ) {
                                                            None => None,
                                                            Some((awid, g)) => if lit_at(
                                                                s,
                                                                g,
                                                                "}"@,
                                                            ) {
                                                                Some(
                                                                    (
                                                                        WorkspaceV {
                                                                            id,
                                                                            idx,
                                                                            output,
                                                                            is_active,
                                                                            is_focused,
                                                                            is_urgent,
                                                                            active_window_id: awid,
                                                                        },
                                                                        g + "}"@.len(),
                                                                    ),
                                                                )
                                                            } else {
                                                                None
                                                            },
                                                        }
                                                    },
                                                }
                                            },
                                        }
                                    },
                                }
                            },
                        }
                    },
                }
            },
        }
    }
}

/// Parses a workspace object.
pub fn p_workspace(s: &Vec<char>, i: usize) -> (r: Option<(Workspace, usize)>)
    requires
        i <= s@.len(),
    ensures
        match r {
            Some((w, j)) => sp_workspace(s@, i as int) == Some((w@, j as int)) && i < j
                <= s@.len(),
            None => sp_workspace(s@, i as int) is None,
        },
{
    let a0 = match expect_lit(s, i, "{\"id\":") {
        Some(j) => j,
        None => {
            return None;
        },
    };
    let (id, a) = match p_u64(s, a0) {
        Some(p) => p,
        None => {
            return None;
        },
    };
    let b0 = match expect_lit(s, a, ",\"idx\":") {
        Some(j) => j,
        None => {
            return None;
        },
    };
    let (idx, b) = match p_u8(s, b0) {
        Some(p) => p,
        None => {
            return None;
        },
    };
    let c0 = match expect_lit(s, b, ",\"output\":") {
        Some(j) => j,
        None => {
            return None;
        },
    };
    let (output, c) = match p_opt_string(s, c0) {
        Some(p) => p,
        None => {
            return None;
        },
    };
    let d0 = match expect_lit(s, c, ",\"is_active\":") {
        Some(j) => j,
        None => {
            return None;
        },
    };
    let (is_active, d) = match p_bool(s, d0) {
        Some(p) => p,
        None => {
            return None;
        },
    };
    let e0 = match expect_lit(s, d, ",\"is_focused\":") {
        Some(j) => j,
        None => {
            return None;
        },
    };
    let (is_focused, e) = match p_bool(s, e0) {
        Some(p) => p,
        None => {
            return None;
        },
    };
    let f0 = match expect_lit(s, e, ",\"is_urgent\":") {
        Some(j) => j,
        None => {
            return None;
        },
    };
    let (is_urgent, f) = match p_bool(s, f0) {
        Some(p) => p,
        None => {
            return None;
        },
    };
    let g0 = match expect_lit(s, f, ",\"active_window_id\":") {
        Some(j) => j,
        None => {
            return None;
        },
    };
    let (awid, g) = match p_opt_u64(s, g0) {
        Some(p) => p,
        None => {
            return None;
        },
    };
    let h = match expect_lit(s, g, "}") {
        Some(j) => j,
        None => {
            return None;
        },
    };
    Some(
        (
            Workspace {
                id,
                idx,
                output,
                is_active,
                is_focused,
                is_urgent,
                active_window_id: awid,
            },
            h,
        ),
    )
}

/// A window object, fields in canonical order.
pub open spec fn sp_window(s: Seq<char>, i: int) -> Option<(Window, int)> {
    if !lit_at(s, i, "{\"id\":"@) {
        None
    } else {
        match sp_u64(s, i + "{\"id\":"@.len()) {
            None => None,
            Some((id, a)) => if !lit_at(s, a, ",\"workspace_id\":"@) {
                None
            } else {
                match sp_opt_u64(s, a + ",\"workspace_id\":"@.len()) {
                    None => None,
                    Some((wsid, b)) => if !lit_at(s, b, ",\"is_focused\":"@) {
                        None
                    } else {
                        match sp_bool(s, b + ",\"is_focused\":"@.len()) {
                            None => None,
                            Some((is_focused, c)) => if !lit_at(s, c, ",\"is_floating\":"@) {
                                None
                            } else {
                                match sp_bool(s, c + ",\"is_floating\":"@.len()) {
                                    None => None,
                                    Some((is_floating, d)) => if !lit_at(s, d, ",\"is_urgent\":"@) {
                                        None
                                    } else {
                                        match sp_bool(s, d + ",\"is_urgent\":"@.len()) {
                                            None => None,
                                            Some((is_urgent, e)) => if !lit_at(
                                                s,
                                                e,
                                                ",\"layout\":"@,
                                            ) {
                                                None
                                            } else {
                                                match sp_layout(s, e + ",\"layout\":"@.len()) {
                                                    None => None,
                                                    Some((layout, f)) => if lit_at(s, f, "}"@) {
                                                        Some(
                                                            (
                                                                Window {
                                                                    id,
                                                                    workspace_id: wsid,
                                                                    is_focused,
                                                                    is_floating,
                                                                    is_urgent,
                                                                    layout,
                                                                },
                                                                f + "}"@.len(),
                                                            ),
                                                        )
                                                    } else {
                                                        None
                                                    },
                                                }
                                            },
                                        }
                                    },
                                }
                            },
                        }
                    },
                }
            },
        }
    }
}

/// Parses a window object.
pub fn p_window(s: &Vec<char>, i: usize) -> (r: Option<(Window, usize)>)
    requires
        i <= s@.len(),
    ensures
        match r {
            Some((w, j)) => sp_window(s@, i as int) == Some((w, j as int)) && i < j <= s@.len(),
            None => sp_window(s@, i as int) is None,
        },
{
    let a0 = match expect_lit(s, i, "{\"id\":") {
        Some(j) => j,
        None => {
            return None;
        },
    };
    let (id, a) = match p_u64(s, a0) {
        Some(p) => p,
        None => {
            return None;
        },
    };
    let b0 = match expect_lit(s, a, ",\"workspace_id\":") {
        Some(j) => j,
        None => {
            return None;
        },
    };
    let (wsid, b) = match p_opt_u64(s, b0) {
        Some(p) => p,
        None => {
            return None;
        },
    };
    let c0 = match expect_lit(s, b, ",\"is_focused\":") {
        Some(j) => j,
        None => {
            return None;
        },
    };
    let (is_focused, c) = match p_bool(s, c0) {
        Some(p) => p,
        None => {
            return None;
        },
    };
    let d0 = match expect_lit(s, c, ",\"is_floating\":") {
        Some(j) => j,
        None => {
            return None;
        },
    };
    let (is_floating, d) = match p_bool(s, d0) {
        Some(p) => p,
        None => {
            return None;
        },
    };
    let e0 = match expect_lit(s, d, ",\"is_urgent\":") {
        Some(j) => j,
        None => {
            return None;
        },
    };
    let (is_urgent, e) = match p_bool(s, e0) {
        Some(p) => p,
        None => {
            return None;
        },
    };
    let f0 = match expect_lit(s, e, ",\"layout\":") {
        Some(j) => j,
        None => {
            return None;
        },
    };
    let (layout, f) = match p_layout(s, f0) {
        Some(p) => p,
        None => {
            return None;
        },
    };
    let g = match expect_lit(s, f, "}") {
        Some(j) => j,
        None => {
            return None;
        },
    };
    Some((Window { id, workspace_id: wsid, is_focused, is_floating, is_urgent, layout }, g))
}

/// The items of a workspace array after the opening bracket, up to and
/// including the closing bracket.
pub open spec fn sp_ws_items(s: Seq<char>, i: int) -> Option<(Seq<WorkspaceV>, int)>
    decreases s.len() - i,
{
    match sp_workspace(s, i) {
        None => None,
        Some((w, j)) => if i < j && j < s.len() && s[j] == ',' {
            match sp_ws_items(s, j + 1) {
                None => None,
                Some((rest, k)) => Some((seq![w] + rest, k)),
            }
        } else if j < s.len() && s[j] == ']' {
            Some((seq![w], j + 1))
        } else {
            None
        },
    }
}

/// Parses the items of a workspace array.
pub fn p_ws_items(s: &Vec<char>, i: usize) -> (r: Option<(Vec<Workspace>, usize)>)
    requires
        i <= s@.len(),
    ensures
        match r {
            Some((v, j)) => sp_ws_items(s@, i as int) == Some((ws_views(v@), j as int)) && i < j
                <= s@.len(),
            None => sp_ws_items(s@, i as int) is None,
        },
    decreases s@.len() - i,
{
    let (w, j) = match p_workspace(s, i) {
        Some(p) => p,
        None => {
            return None;
        },
    };
    if j < s.len() && s[j] == ',' {
        match p_ws_items(s, j + 1) {
            None => None,
            Some((mut rest, k)) => {
                let ghost rest0 = rest@;
                rest.insert(0, w);
                proof {
                    assert(ws_views(rest@) =~= seq![w@] + ws_views(rest0));
                }
                Some((rest, k))
            },
        }
    } else if j < s.len() && s[j] == ']' {
        let mut v: Vec<Workspace> = Vec::new();
        v.push(w);
        proof {
            assert(ws_views(v@) =~= seq![w@]);
        }
        Some((v, j + 1))
    } else {
        None
    }
}

/// A workspace array: empty, or items up to the closing bracket.
pub open spec fn sp_ws_list(s: Seq<char>, i: int) -> Option<(Seq<WorkspaceV>, int)> {
    if !lit_at(s, i, "["@) {
        None
    } else {
        let i1 = i + "["@.len();
        if lit_at(s, i1, "]"@) {
            Some((Seq::empty(), i1 + "]"@.len()))
        } else {
            sp_ws_items(s, i1)
        }
    }
}

/// Parses a workspace array.
pub fn p_ws_list(s: &Vec<char>, i: usize) -> (r: Option<(Vec<Workspace>, usize)>)
    requires
        i <= s@.len(),
    ensures
        match r {
            Some((v, j)) => sp_ws_list(s@, i as int) == Some((ws_views(v@), j as int)) && i <= j
                <= s@.len(),
            None => sp_ws_list(s@, i as int) is None,
        },
{
    let i1 = match expect_lit(s, i, "[") {
        Some(j) => j,
        None => {
            return None;
        },
    };
    match expect_lit(s, i1, "]") {
        Some(j) => {
            let v: Vec<Workspace> = Vec::new();
            proof {
                assert(ws_views(v@) =~= Seq::<WorkspaceV>::empty());
            }
            Some((v, j))
        },
        None => p_ws_items(s, i1),
    }
}

/// The items of a window array after the opening bracket.
pub open spec fn sp_win_items(s: Seq<char>, i: int) -> Option<(Seq<Window>, int)>
    decreases s.len() - i,
{
    match sp_window(s, i) {
        None => None,
        Some((w, j)) => if i < j && j < s.len() && s[j] == ',' {
            match sp_win_items(s, j + 1) {
                None => None,
                Some((rest, k)) => Some((seq![w] + rest, k)),
            }
        } else if j < s.len() && s[j] == ']' {
            Some((seq![w], j + 1))
        } else {
            None
        },
    }
}

/// Parses the items of a window array.
pub fn p_win_items(s: &Vec<char>, i: usize) -> (r: Option<(Vec<Window>, usize)>)
    requires
        i <= s@.len(),
    ensures
        match r {
            Some((v, j)) => sp_win_items(s@, i as int) == Some((v@, j as int)) && i < j
                <= s@.len(),
            None => sp_win_items(s@, i as int) is None,
        },
    decreases s@.len() - i,
{
    let (w, j) = match p_window(s, i) {
        Some(p) => p,
        None => {
            return None;
        },
    };
    if j < s.len() && s[j] == ',' {
        match p_win_items(s, j + 1) {
            None => None,
            Some((mut rest, k)) => {
                let ghost rest0 = rest@;
                rest.insert(0, w);
                proof {
                    assert(rest@ =~= seq![w] + rest0);
                }
                Some((rest, k))
            },
        }
    } else if j < s.len() && s[j] == ']' {
        let mut v: Vec<Window> = Vec::new();
        v.push(w);
        proof {
            assert(v@ =~= seq![w]);
        }
        Some((v, j + 1))
    } else {
        None
    }
}

/// A window array: empty, or items up to the closing bracket.
pub open spec fn sp_win_list(s: Seq<char>, i: int) -> Option<(Seq<Window>, int)> {
    if !lit_at(s, i, "["@) {
        None
    } else {
        let i1 = i + "["@.len();
        if lit_at(s, i1, "]"@) {
            Some((Seq::empty(), i1 + "]"@.len()))
        } else {
            sp_win_items(s, i1)
        }
    }
}

/// Parses a window array.
pub fn p_win_list(s: &Vec<char>, i: usize) -> (r: Option<(Vec<Window>, usize)>)
    requires
        i <= s@.len(),
    ensures
        match r {
            Some((v, j)) => sp_win_list(s@, i as int) == Some((v@, j as int)) && i <= j
                <= s@.len(),
            None => sp_win_list(s@, i as int) is None,
        },
{
    let i1 = match expect_lit(s, i, "[") {
        Some(j) => j,
        None => {
            return None;
        },
    };
    match expect_lit(s, i1, "]") {
        Some(j) => {
            let v: Vec<Window> = Vec::new();
            proof {
                assert(v@ =~= Seq::<Window>::empty());
            }
            Some((v, j))
        },
        None => p_win_items(s, i1),
    }
}

/// One layout change: a window id and its new layout, as a two-element
/// array.
pub open spec fn sp_change(s: Seq<char>, i: int) -> Option<(WindowLayoutChange, int)> {
    if !lit_at(s, i, "["@) {
        None
    } else {
        match sp_u64(s, i + "["@.len()) {
            None => None,
            Some((id, a)) => if !lit_at(s, a, ","@) {
                None
            } else {
                match sp_layout(s, a + ","@.len()) {
                    None => None,
                    Some((layout, b)) => if lit_at(s, b, "]"@) {
                        Some((WindowLayoutChange { id, layout }, b + "]"@.len()))
                    } else {
                        None
                    },
                }
            },
        }
    }
}

/// Parses one layout change.
pub fn p_change(s: &Vec<char>, i: usize) -> (r: Option<(WindowLayoutChange, usize)>)
    requires
        i <= s@.len(),
    ensures
        match r {
            Some((c, j)) => sp_change(s@, i as int) == Some((c, j as int)) && i < j <= s@.len(),
            None => sp_change(s@, i as int) is None,
        },
{
    let a0 = match expect_lit(s, i, "[") {
        Some(j) => j,
        None => {
            return None;
        },
    };
    let (id, a) = match p_u64(s, a0) {
        Some(p) => p,
        None => {
            return None;
        },
    };
    let b0 = match expect_lit(s, a, ",") {
        Some(j) => j,
        None => {
            return None;
        },
    };
    let (layout, b) = match p_layout(s, b0) {
        Some(p) => p,
        None => {
            return None;
        },
    };
    match expect_lit(s, b, "]") {
        Some(j) => Some((WindowLayoutChange { id, layout }, j)),
        None => None,
    }
}

/// The items of a layout-change array after the opening bracket.
pub open spec fn sp_change_items(s: Seq<char>, i: int) -> Option<(Seq<WindowLayoutChange>, int)>
    decreases s.len() - i,
{
    match sp_change(s, i) {
        None => None,
        Some((c, j)) => if i < j && j < s.len() && s[j] == ',' {
            match sp_change_items(s, j + 1) {
                None => None,
                Some((rest, k)) => Some((seq![c] + rest, k)),
            }
        } else if j < s.len() && s[j] == ']' {
            Some((seq![c], j + 1))
        } else {
            None
        },
    }
}

/// Parses the items of a layout-change array.
pub fn p_change_items(s: &Vec<char>, i: usize) -> (r: Option<(Vec<WindowLayoutChange>, usize)>)
    requires
        i <= s@.len(),
    ensures
        match r {
            Some((v, j)) => sp_change_items(s@, i as int) == Some((v@, j as int)) && i < j
                <= s@.len(),
            None => sp_change_items(s@, i as int) is None,
        },
    decreases s@.len() - i,
{
    let (c, j) = match p_change(s, i) {
        Some(p) => p,
        None => {
            return None;
        },
    };
    if j < s.len() && s[j] == ',' {
        match p_change_items(s, j + 1) {
            None => None,
            Some((mut rest, k)) => {
                let ghost rest0 = rest@;
                rest.insert(0, c);
                proof {
                    assert(rest@ =~= seq![c] + rest0);
                }
                Some((rest, k))
            },
        }
    } else if j < s.len() && s[j] == ']' {
        let mut v: Vec<WindowLayoutChange> = Vec::new();
        v.push(c);
        proof {
            assert(v@ =~= seq![c]);
        }
        Some((v, j + 1))
    } else {
        None
    }
}

/// A layout-change array: empty, or items up to the closing bracket.
pub open spec fn sp_change_list(s: Seq<char>, i: int) -> Option<(Seq<WindowLayoutChange>, int)> {
    if !lit_at(s, i, "["@) {
        None
    } else {
        let i1 = i + "["@.len();
        if lit_at(s, i1, "]"@) {
            Some((Seq::empty(), i1 + "]"@.len()))
        } else {
            sp_change_items(s, i1)
        }
    }
}

/// Parses a layout-change array.
pub fn p_change_list(s: &Vec<char>, i: usize) -> (r: Option<(Vec<WindowLayoutChange>, usize)>)
    requires
        i <= s@.len(),
    ensures
        match r {
            Some((v, j)) => sp_change_list(s@, i as int) == Some((v@, j as int)) && i <= j
                <= s@.len(),
            None => sp_change_list(s@, i as int) is None,
        },
{
    let i1 = match expect_lit(s, i, "[") {
        Some(j) => j,
        None => {
            return None;
        },
    };
    match expect_lit(s, i1, "]") {
        Some(j) => {
            let v: Vec<WindowLayoutChange> = Vec::new();
            proof {
                assert(v@ =~= Seq::<WindowLayoutChange>::empty());
            }
            Some((v, j))
        },
        None => p_change_items(s, i1),
    }
}

/// The items of a string array after the opening bracket.
pub open spec fn sp_name_items(s: Seq<char>, i: int) -> Option<(Seq<Seq<char>>, int)>
    decreases s.len() - i,
{
    match sp_string(s, i) {
        None => None,
        Some((n, j)) => if i < j && j < s.len() && s[j] == ',' {
            match sp_name_items(s, j + 1) {
                None => None,
                Some((rest, k)) => Some((seq![n] + rest, k)),
            }
        } else if j < s.len() && s[j] == ']' {
            Some((seq![n], j + 1))
        } else {
            None
        },
    }
}

/// Parses the items of a string array.
pub fn p_name_items(s: &Vec<char>, i: usize) -> (r: Option<(Vec<Vec<char>>, usize)>)
    requires
        i <= s@.len(),
    ensures
        match r {
            Some((v, j)) => sp_name_items(s@, i as int) == Some(
                (crate::model::chars_views(v@), j as int),
            ) && i < j <= s@.len(),
            None => sp_name_items(s@, i as int) is None,
        },
    decreases s@.len() - i,
{
    let (n, j) = match p_string(s, i) {
        Some(p) => p,
        None => {
            return None;
        },
    };
    if j < s.len() && s[j] == ',' {
        match p_name_items(s, j + 1) {
            None => None,
            Some((mut rest, k)) => {
                let ghost rest0 = rest@;
                let ghost nv = n@;
                rest.insert(0, n);
                proof {
                    assert(crate::model::chars_views(rest@) =~= seq![nv]
                        + crate::model::chars_views(rest0));
                }
                Some((rest, k))
            },
        }
    } else if j < s.len() && s[j] == ']' {
        let ghost nv = n@;
        let mut v: Vec<Vec<char>> = Vec::new();
        v.push(n);
        proof {
            assert(crate::model::chars_views(v@) =~= seq![nv]);
        }
        Some((v, j + 1))
    } else {
        None
    }
}

/// A string array: empty, or items up to the closing bracket.
pub open spec fn sp_name_list(s: Seq<char>, i: int) -> Option<(Seq<Seq<char>>, int)> {
    if !lit_at(s, i, "["@) {
        None
    } else {
        let i1 = i + "["@.len();
        if lit_at(s, i1, "]"@) {
            Some((Seq::empty(), i1 + "]"@.len()))
        } else {
            sp_name_items(s, i1)
        }
    }
}

/// Parses a string array.
pub fn p_name_list(s: &Vec<char>, i: usize) -> (r: Option<(Vec<Vec<char>>, usize)>)
    requires
        i <= s@.len(),
    ensures
        match r {
            Some((v, j)) => sp_name_list(s@, i as int) == Some(
                (crate::model::chars_views(v@), j as int),
            ) && i <= j <= s@.len(),
            None => sp_name_list(s@, i as int) is None,
        },
{
    let i1 = match expect_lit(s, i, "[") {
        Some(j) => j,
        None => {
            return None;
        },
    };
    match expect_lit(s, i1, "]") {
        Some(j) => {
            let v: Vec<Vec<char>> = Vec::new();
            proof {
                assert(crate::model::chars_views(v@) =~= Seq::<Seq<char>>::empty());
            }
            Some((v, j))
        },
        None => p_name_items(s, i1),
    }
}

/// One event object, dispatched on its variant tag.
pub open spec fn sp_event(s: Seq<char>, i: int) -> Option<(EventV, int)> {
    if lit_at(s, i, "{\"WorkspacesChanged\":{\"workspaces\":"@) {
        match sp_ws_list(s, i + "{\"WorkspacesChanged\":{\"workspaces\":"@.len()) {
            None => None,
            Some((workspaces, j)) => if lit_at(s, j, "}}"@) {
                Some((EventV::WorkspacesChanged { workspaces }, j + "}}"@.len()))
            } else {
                None
            },
        }
    } else if lit_at(s, i, "{\"WorkspaceActivated\":{\"id\":"@) {
        match sp_u64(s, i + "{\"WorkspaceActivated\":{\"id\":"@.len()) {
            None => None,
            Some((id, a)) => if !lit_at(s, a, ",\"focused\":"@) {
                None
            } else {
                match sp_bool(s, a + ",\"focused\":"@.len()) {
                    None => None,
                    Some((focused, b)) => if lit_at(s, b, "}}"@) {
                        Some((EventV::WorkspaceActivated { id, focused }, b + "}}"@.len()))
                    } else {
                        None
                    },
                }
            },
        }
    } else if lit_at(s, i, "{\"WorkspaceUrgencyChanged\":{\"id\":"@) {
        match sp_u64(s, i + "{\"WorkspaceUrgencyChanged\":{\"id\":"@.len()) {
            None => None,
            Some((id, a)) => if !lit_at(s, a, ",\"urgent\":"@) {
                None
            } else {
                match sp_bool(s, a + ",\"urgent\":"@.len()) {
                    None => None,
                    Some((urgent, b)) => if lit_at(s, b, "}}"@) {
                        Some((EventV::WorkspaceUrgencyChanged { id, urgent }, b + "}}"@.len()))
                    } else {
                        None
                    },
                }
            },
        }
    } else if lit_at(s, i, "{\"WorkspaceActiveWindowChanged\":{\"workspace_id\":"@) {
        match sp_u64(s, i + "{\"WorkspaceActiveWindowChanged\":{\"workspace_id\":"@.len()) {
            None => None,
            Some((workspace_id, a)) => if !lit_at(s, a, ",\"active_window_id\":"@) {
                None
            } else {
                match sp_opt_u64(s, a + ",\"active_window_id\":"@.len()) {
                    None => None,
                    Some((awid, b)) => if lit_at(s, b, "}}"@) {
                        Some(
                            (
                                EventV::WorkspaceActiveWindowChanged {
                                    workspace_id,
                                    active_window_id: awid,
                                },
                                b + "}}"@.len(),
                            ),
                        )
                    } else {
                        None
                    },
                }
            },
        }
    } else if lit_at(s, i, "{\"WindowsChanged\":{\"windows\":"@) {
        match sp_win_list(s, i + "{\"WindowsChanged\":{\"windows\":"@.len()) {
            None => None,
            Some((windows, j)) => if lit_at(s, j, "}}"@) {
                Some((EventV::WindowsChanged { windows }, j + "}}"@.len()))
            } else {
                None
            },
        }
    } else if lit_at(s, i, "{\"WindowOpenedOrChanged\":{\"window\":"@) {
        match sp_window(s, i + "{\"WindowOpenedOrChanged\":{\"window\":"@.len()) {
            None => None,
            Some((window, j)) => if lit_at(s, j, "}}"@) {
                Some((EventV::WindowOpenedOrChanged { window }, j + "}}"@.len()))
            } else {
                None
            },
        }
    } else if lit_at(s, i, "{\"WindowClosed\":{\"id\":"@) {
        match sp_u64(s, i + "{\"WindowClosed\":{\"id\":"@.len()) {
            None => None,
            Some((id, j)) => if lit_at(s, j, "}}"@) {
                Some((EventV::WindowClosed { id }, j + "}}"@.len()))
            } else {
                None
            },
        }
    } else if lit_at(s, i, "{\"WindowFocusChanged\":{\"id\":"@) {
        match sp_opt_u64(s, i + "{\"WindowFocusChanged\":{\"id\":"@.len()) {
            None => None,
            Some((id, j)) => if lit_at(s, j, "}}"@) {
                Some((EventV::WindowFocusChanged { id }, j + "}}"@.len()))
            } else {
                None
            },
        }
    } else if lit_at(s, i, "{\"WindowUrgencyChanged\":{\"id\":"@) {
        match sp_u64(s, i + "{\"WindowUrgencyChanged\":{\"id\":"@.len()) {
            None => None,
            Some((id, a)) => if !lit_at(s, a, ",\"urgent\":"@) {
                None
            } else {
                match sp_bool(s, a + ",\"urgent\":"@.len()) {
                    None => None,
                    Some((urgent, b)) => if lit_at(s, b, "}}"@) {
                        Some((EventV::WindowUrgencyChanged { id, urgent }, b + "}}"@.len()))
                    } else {
                        None
                    },
                }
            },
        }
    } else if lit_at(s, i, "{\"WindowLayoutsChanged\":{\"changes\":"@) {
        match sp_change_list(s, i + "{\"WindowLayoutsChanged\":{\"changes\":"@.len()) {
            None => None,
            Some((changes, j)) => if lit_at(s, j, "}}"@) {
                Some((EventV::WindowLayoutsChanged { changes }, j + "}}"@.len()))
            } else {
                None
            },
        }
    } else if lit_at(s, i, "{\"KeyboardLayoutsChanged\":{\"keyboard_layouts\":{\"names\":"@) {
        match sp_name_list(
            s,
            i + "{\"KeyboardLayoutsChanged\":{\"keyboard_layouts\":{\"names\":"@.len(),
        ) {
            None => None,
            Some((names, a)) => if !lit_at(s, a, ",\"current_idx\":"@) {
                None
            } else {
                match sp_u8(s, a + ",\"current_idx\":"@.len()) {
                    None => None,
                    Some((current_idx, b)) => if lit_at(s, b, "}}}"@) {
                        Some(
                            (
                                EventV::KeyboardLayoutsChanged {
                                    keyboard_layouts: KeyboardLayoutsV { names, current_idx },
                                },
                                b + "}}}"@.len(),
                            ),
                        )
                    } else {
                        None
                    },
                }
            },
        }
    } else if lit_at(s, i, "{\"KeyboardLayoutSwitched\":{\"idx\":"@) {
        match sp_u8(s, i + "{\"KeyboardLayoutSwitched\":{\"idx\":"@.len()) {
            None => None,
            Some((idx, j)) => if lit_at(s, j, "}}"@) {
                Some((EventV::KeyboardLayoutSwitched { idx }, j + "}}"@.len()))
            } else {
                None
            },
        }
    } else if lit_at(s, i, "{\"OverviewOpenedOrClosed\":{\"is_open\":"@) {
        match sp_bool(s, i + "{\"OverviewOpenedOrClosed\":{\"is_open\":"@.len()) {
            None => None,
            Some((is_open, j)) => if lit_at(s, j, "}}"@) {
                Some((EventV::OverviewOpenedOrClosed { is_open }, j + "}}"@.len()))
            } else {
                None
            },
        }
    } else if lit_at(s, i, "{\"ConfigLoaded\":{\"failed\":"@) {
        match sp_bool(s, i + "{\"ConfigLoaded\":{\"failed\":"@.len()) {
            None => None,
            Some((failed, j)) => if lit_at(s, j, "}}"@) {
                Some((EventV::ConfigLoaded { failed }, j + "}}"@.len()))
            } else {
                None
            },
        }
    } else {
        None
    }
}

/// Parses one event object.
pub fn p_event(s: &Vec<char>, i: usize) -> (r: Option<(Event, usize)>)
    requires
        i <= s@.len(),
    ensures
        match r {
            Some((e, j)) => sp_event(s@, i as int) == Some((e@, j as int)) && i <= j <= s@.len(),
            None => sp_event(s@, i as int) is None,
        },
{
    if let Some(a0) = expect_lit(s, i, "{\"WorkspacesChanged\":{\"workspaces\":") {
        let (workspaces, j) = match p_ws_list(s, a0) {
            Some(p) => p,
            None => {
                return None;
            },
        };
        return match expect_lit(s, j, "}}") {
            Some(k) => Some((Event::WorkspacesChanged { workspaces }, k)),
            None => None,
        };
    }
    if let Some(a0) = expect_lit(s, i, "{\"WorkspaceActivated\":{\"id\":") {
        let (id, a) = match p_u64(s, a0) {
            Some(p) => p,
            None => {
                return None;
            },
        };
        let b0 = match expect_lit(s, a, ",\"focused\":") {
            Some(j) => j,
            None => {
                return None;
            },
        };
        let (focused, b) = match p_bool(s, b0) {
            Some(p) => p,
            None => {
                return None;
            },
        };
        return match expect_lit(s, b, "}}") {
            Some(k) => Some((Event::WorkspaceActivated { id, focused }, k)),
            None => None,
        };
    }
    if let Some(a0) = expect_lit(s, i, "{\"WorkspaceUrgencyChanged\":{\"id\":") {
        let (id, a) = match p_u64(s, a0) {
            Some(p) => p,
            None => {
                return None;
            },
        };
        let b0 = match expect_lit(s, a, ",\"urgent\":") {
            Some(j) => j,
            None => {
                return None;
            },
        };
        let (urgent, b) = match p_bool(s, b0) {
            Some(p) => p,
            None => {
                return None;
            },
        };
        return match expect_lit(s, b, "}}") {
            Some(k) => Some((Event::WorkspaceUrgencyChanged { id, urgent }, k)),
            None => None,
        };
    }
    if let Some(a0) = expect_lit(s, i, "{\"WorkspaceActiveWindowChanged\":{\"workspace_id\":") {
        let (workspace_id, a) = match p_u64(s, a0) {
            Some(p) => p,
            None => {
                return None;
            },
        };
        let b0 = match expect_lit(s, a, ",\"active_window_id\":") {
            Some(j) => j,
            None => {
                return None;
            },
        };
        let (awid, b) = match p_opt_u64(s, b0) {
            Some(p) => p,
            None => {
                return None;
            },
        };
        return match expect_lit(s, b, "}}") {
            Some(k) => Some(
                (
                    Event::WorkspaceActiveWindowChanged { workspace_id, active_window_id: awid },
                    k,
                ),
            ),
            None => None,
        };
    }
    if let Some(a0) = expect_lit(s, i, "{\"WindowsChanged\":{\"windows\":") {
        let (windows, j) = match p_win_list(s, a0) {
            Some(p) => p,
            None => {
                return None;
            },
        };
        return match expect_lit(s, j, "}}") {
            Some(k) => Some((Event::WindowsChanged { windows }, k)),
            None => None,
        };
    }
    if let Some(a0) = expect_lit(s, i, "{\"WindowOpenedOrChanged\":{\"window\":") {
        let (window, j) = match p_window(s, a0) {
            Some(p) => p,
            None => {
                return None;
            },
        };
        return match expect_lit(s, j, "}}") {
            Some(k) => Some((Event::WindowOpenedOrChanged { window }, k)),
            None => None,
        };
    }
    if let Some(a0) = expect_lit(s, i, "{\"WindowClosed\":{\"id\":") {
        let (id, j) = match p_u64(s, a0) {
            Some(p) => p,
            None => {
                return None;
            },
        };
        return match expect_lit(s, j, "}}") {
            Some(k) => Some((Event::WindowClosed { id }, k)),
            None => None,
        };
    }
    if let Some(a0) = expect_lit(s, i, "{\"WindowFocusChanged\":{\"id\":") {
        let (id, j) = match p_opt_u64(s, a0) {
            Some(p) => p,
            None => {
                return None;
            },
        };
        return match expect_lit(s, j, "}}") {
            Some(k) => Some((Event::WindowFocusChanged { id }, k)),
            None => None,
        };
    }
    if let Some(a0) = expect_lit(s, i, "{\"WindowUrgencyChanged\":{\"id\":") {
        let (id, a) = match p_u64(s, a0) {
            Some(p) => p,
            None => {
                return None;
            },
        };
        let b0 = match expect_lit(s, a, ",\"urgent\":") {
            Some(j) => j,
            None => {
                return None;
            },
        };
        let (urgent, b) = match p_bool(s, b0) {
            Some(p) => p,
            None => {
                return None;
            },
        };
        return match expect_lit(s, b, "}}") {
            Some(k) => Some((Event::WindowUrgencyChanged { id, urgent }, k)),
            None => None,
        };
    }
    if let Some(a0) = expect_lit(s, i, "{\"WindowLayoutsChanged\":{\"changes\":") {
        let (changes, j) = match p_change_list(s, a0) {
            Some(p) => p,
            None => {
                return None;
            },
        };
        return match expect_lit(s, j, "}}") {
            Some(k) => Some((Event::WindowLayoutsChanged { changes }, k)),
            None => None,
        };
    }
    if let Some(a0) = expect_lit(s, i, "{\"KeyboardLayoutsChanged\":{\"keyboard_layouts\":{\"names\":") {
        let (names, a) = match p_name_list(s, a0) {
            Some(p) => p,
            None => {
                return None;
            },
        };
        let b0 = match expect_lit(s, a, ",\"current_idx\":") {
            Some(j) => j,
            None => {
                return None;
            },
        };
        let (current_idx, b) = match p_u8(s, b0) {
            Some(p) => p,
            None => {
                return None;
            },
        };
        return match expect_lit(s, b, "}}}") {
            Some(k) => Some(
                (
                    Event::KeyboardLayoutsChanged {
                        keyboard_layouts: KeyboardLayouts { names, current_idx },
                    },
                    k,
                ),
            ),
            None => None,
        };
    }
    if let Some(a0) = expect_lit(s, i, "{\"KeyboardLayoutSwitched\":{\"idx\":") {
        let (idx, j) = match p_u8(s, a0) {
            Some(p) => p,
            None => {
                return None;
            },
        };
        return match expect_lit(s, j, "}}") {
            Some(k) => Some((Event::KeyboardLayoutSwitched { idx }, k)),
            None => None,
        };
    }
    if let Some(a0) = expect_lit(s, i, "{\"OverviewOpenedOrClosed\":{\"is_open\":") {
        let (is_open, j) = match p_bool(s, a0) {
            Some(p) => p,
            None => {
                return None;
            },
        };
        return match expect_lit(s, j, "}}") {
            Some(k) => Some((Event::OverviewOpenedOrClosed { is_open }, k)),
            None => None,
        };
    }
    if let Some(a0) = expect_lit(s, i, "{\"ConfigLoaded\":{\"failed\":") {
        let (failed, j) = match p_bool(s, a0) {
            Some(p) => p,
            None => {
                return None;
            },
        };
        return match expect_lit(s, j, "}}") {
            Some(k) => Some((Event::ConfigLoaded { failed }, k)),
            None => None,
        };
    }
    None
}

/// One whole inbound line decoded as an event: the event object followed
/// by nothing but an optional line feed.
pub open spec fn sp_event_line(s: Seq<char>) -> Option<EventV> {
    match sp_event(s, 0) {
        None => None,
        Some((e, j)) => if j == s.len() || (j + 1 == s.len() && s[j] == '\n') {
            Some(e)
        } else {
            None
        },
    }
}

/// A line that does not decode as exactly one event. Under the reference
/// policy the consumer aborts on the first such line: the protocol is a
/// closed contract, and a deviation indicates version skew.
#[derive(Clone, Copy, PartialEq, Eq, Structural, Debug)]
pub enum DecodeError {
    MalformedLine,
}

/// Decodes one inbound line. Succeeds, with the decoded event, exactly
/// when the line is the canonical encoding of one event; fails with
/// [`DecodeError::MalformedLine`] on every other line.
pub fn decode_event_line(line: &Vec<char>) -> (r: Result<Event, DecodeError>)
    ensures
        match r {
            Ok(e) => sp_event_line(line@) == Some(e@),
            Err(DecodeError::MalformedLine) => sp_event_line(line@) is None,
        },
{
    match p_event(line, 0) {
        None => Err(DecodeError::MalformedLine),
        Some((e, j)) => {
            if j == line.len() {
                Ok(e)
            } else if j + 1 == line.len() && line[j] == '\n' {
                Ok(e)
            } else {
                Err(DecodeError::MalformedLine)
            }
        },
    }
}

/// One element of the event sequence a consumer drains: an event, a
/// per-line decode error, or the clean end of the stream. A decode error
/// is distinct from the end: the caller decides whether to abort.
#[derive(Debug)]
pub enum StreamItem {
    Event(Event),
    Malformed,
    End,
}

/// Turns the outcome of reading one line into the next element of the
/// event sequence: a read of zero bytes is the clean end of the stream,
/// anything else decodes as one event or surfaces as a decode error.
pub fn stream_item(bytes_read: usize, line: &Vec<char>) -> (r: StreamItem)
    ensures
        (r is End) <==> bytes_read == 0,
        bytes_read > 0 ==> match r {
            StreamItem::Event(e) => sp_event_line(line@) == Some(e@),
            StreamItem::Malformed => sp_event_line(line@) is None,
            StreamItem::End => false,
        },
{
    if bytes_read == 0 {
        StreamItem::End
    } else {
        match decode_event_line(line) {
            Ok(e) => StreamItem::Event(e),
            Err(DecodeError::MalformedLine) => StreamItem::Malformed,
        }
    }
}

/// Whether the line is the success acknowledgement of the subscription
/// handshake.
pub open spec fn sp_reply_ok(s: Seq<char>) -> bool {
    lit_at(s, 0, "{\"Ok\":\"Handled\"}"@) && {
        let j = "{\"Ok\":\"Handled\"}"@.len() as int;
        j == s.len() || (j + 1 == s.len() && s[j] == '\n')
    }
}

/// The message of a structured error reply, if the line is one.
pub open spec fn sp_reply_err(s: Seq<char>) -> Option<Seq<char>> {
    if !lit_at(s, 0, "{\"Err\":"@) {
        None
    } else {
        match sp_string(s, "{\"Err\":"@.len() as int) {
            None => None,
            Some((m, j)) => if lit_at(s, j, "}"@) && {
                let k = j + "}"@.len();
                k == s.len() || (k + 1 == s.len() && s[k] == '\n')
            } {
                Some(m)
            } else {
                None
            },
        }
    }
}

/// A failed subscription handshake. Both cases are fatal: the request is
/// never retried.
#[derive(Debug)]
pub enum HandshakeError {
    /// The peer answered with a structured error carrying this message.
    ErrorReply { message: Vec<char> },
    /// The reply was neither the acknowledgement nor a structured error.
    UnexpectedReply,
}

/// Checks the handshake reply: succeeds exactly on the success
/// acknowledgement; a structured error reply and any other line are
/// distinct fatal errors.
pub fn check_subscribe_reply(line: &Vec<char>) -> (r: Result<(), HandshakeError>)
    ensures
        (r is Ok) <==> sp_reply_ok(line@),
        match r {
            Ok(_) => true,
            Err(HandshakeError::ErrorReply { message }) => sp_reply_err(line@) == Some(message@),
            Err(HandshakeError::UnexpectedReply) => sp_reply_err(line@) is None,
        },
{
    if let Some(j) = expect_lit(line, 0, "{\"Ok\":\"Handled\"}") {
        if j == line.len() || (j + 1 == line.len() && line[j] == '\n') {
            proof {
                assert(sp_reply_ok(line@));
            }
            return Ok(());
        }
    }
    proof {
        assert(!sp_reply_ok(line@));
    }
    if let Some(a) = expect_lit(line, 0, "{\"Err\":") {
        if let Some((m, j)) = p_string(line, a) {
            if let Some(k) = expect_lit(line, j, "}") {
                if k == line.len() || (k + 1 == line.len() && line[k] == '\n') {
                    return Err(HandshakeError::ErrorReply { message: m });
                }
            }
        }
    }
    Err(HandshakeError::UnexpectedReply)
}

/// Copies the characters of a literal.
fn chars_of_str(lit: &str) -> (r: Vec<char>)
    ensures
        r@ == lit@,
{
    let n = lit.unicode_len();
    let mut r: Vec<char> = Vec::new();
    let mut i: usize = 0;
    while i < n
        invariant
            0 <= i <= n,
            n == lit@.len(),
            r@ == lit@.subrange(0, i as int),
        decreases n - i,
    {
        r.push(lit.get_char(i));
        proof {
            assert(r@ =~= lit@.subrange(0, i + 1));
        }
        i += 1;
    }
    proof {
        assert(r@ =~= lit@);
    }
    r
}

/// The one request this client ever sends: the subscription to the event
/// stream, as one newline-terminated JSON value.
pub fn event_stream_request() -> (r: Vec<char>)
    ensures
        r@ == "\"EventStream\"\n"@,
{
    chars_of_str("\"EventStream\"\n")
}

} // verus!
