//! The consumer-boundary snapshot: a standalone copy of the whole state,
//! one definition per facet, handed to the external serializer. The copy
//! carries exactly the facets' values; turning it into output text is the
//! consumer's business.

use vstd::prelude::*;

use crate::model::{
    chars_clone, chars_views, workspaces_clone, ws_views, EventStreamState, KeyboardLayouts,
    KeyboardLayoutsV, Window, Workspace,
};

verus! {

/// The workspaces facet, as the snapshot carries it.
#[derive(Debug)]
pub struct WorkspacesStateDef {
    pub workspaces: Vec<Workspace>,
}

/// The windows facet, as the snapshot carries it.
#[derive(Debug)]
pub struct WindowsStateDef {
    pub windows: Vec<Window>,
}

/// The keyboard-layouts facet, as the snapshot carries it.
#[derive(Debug)]
pub struct KeyboardLayoutsStateDef {
    pub keyboard_layouts: Option<KeyboardLayouts>,
}

/// The overview facet, as the snapshot carries it.
#[derive(Clone, Copy, PartialEq, Eq, Structural, Debug)]
pub struct OverviewStateDef {
    pub is_open: bool,
}

/// The config facet, as the snapshot carries it.
#[derive(Clone, Copy, PartialEq, Eq, Structural, Debug)]
pub struct ConfigStateDef {
    pub failed: bool,
}

/// A read-only snapshot of the whole state for the external serializer.
#[derive(Debug)]
pub struct SerializableState {
    pub workspaces: WorkspacesStateDef,
    pub windows: WindowsStateDef,
    pub keyboard_layouts: KeyboardLayoutsStateDef,
    pub overview: OverviewStateDef,
    pub config: ConfigStateDef,
}

/// Copies a window vector.
fn windows_clone(v: &Vec<Window>) -> (r: Vec<Window>)
    ensures
        r@ == v@,
{
    let mut r: Vec<Window> = Vec::new();
    let mut i: usize = 0;
    while i < v.len()
        invariant
            0 <= i <= v.len(),
            r@ == v@.subrange(0, i as int),
        decreases v.len() - i,
    {
        r.push(v[i]);
        proof {
            assert(r@ =~= v@.subrange(0, i + 1));
        }
        i += 1;
    }
    proof {
        assert(r@ =~= v@);
    }
    r
}

/// Copies the keyboard layouts, preserving their view.
fn keyboard_layouts_clone(k: &KeyboardLayouts) -> (r: KeyboardLayouts)
    ensures
        r@ == k@,
{
    let mut names: Vec<Vec<char>> = Vec::new();
    let mut i: usize = 0;
    while i < k.names.len()
        invariant
            0 <= i <= k.names.len(),
            names@.len() == i,
            forall|j: int| 0 <= j < i ==> #[trigger] names@[j]@ == k.names@[j]@,
        decreases k.names.len() - i,
    {
        names.push(chars_clone(&k.names[i]));
        i += 1;
    }
    proof {
        assert(chars_views(names@) =~= chars_views(k.names@));
    }
    KeyboardLayouts { names, current_idx: k.current_idx }
}

impl SerializableState {
    /// Snapshots the given state: each facet of the copy holds exactly
    /// the state's current value.
    pub fn from(event_stream_state: &EventStreamState) -> (r: Self)
        ensures
            ws_views(r.workspaces.workspaces@) == event_stream_state@.workspaces,
            r.windows.windows@ == event_stream_state@.windows,
            (match r.keyboard_layouts.keyboard_layouts {
                Some(k) => event_stream_state@.keyboard_layouts == Some(k@),
                None => event_stream_state@.keyboard_layouts is None,
            }),
            r.overview.is_open == event_stream_state@.overview.is_open,
            r.config.failed == event_stream_state@.config.failed,
    {
        SerializableState {
            workspaces: WorkspacesStateDef {
                workspaces: workspaces_clone(&event_stream_state.workspaces.workspaces),
            },
            windows: WindowsStateDef {
                windows: windows_clone(&event_stream_state.windows.windows),
            },
            keyboard_layouts: KeyboardLayoutsStateDef {
                keyboard_layouts: match &event_stream_state.keyboard_layouts.keyboard_layouts {
                    Some(k) => Some(keyboard_layouts_clone(k)),
                    None => None,
                },
            },
            overview: OverviewStateDef { is_open: event_stream_state.overview.is_open },
            config: ConfigStateDef { failed: event_stream_state.config.failed },
        }
    }
}

} // verus!
