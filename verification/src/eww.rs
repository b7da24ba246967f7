//! The widget boundary: the piece of state the widget printer reads — the
//! id of the first active workspace, if any. Formatting and printing live
//! with the consumer.

use vstd::prelude::*;

use crate::model::{EventStreamState, WorkspaceV};

verus! {

/// The ids the widget shows: the first active workspace's id, or nothing
/// while no workspace is active.
pub open spec fn spec_active_ids(ws: Seq<WorkspaceV>) -> Seq<u64>
    decreases ws.len(),
{
    if ws.len() == 0 {
        Seq::empty()
    } else if ws[0].is_active {
        seq![ws[0].id]
    } else {
        spec_active_ids(ws.skip(1))
    }
}

/// Collects the id of the first active workspace.
pub fn active_workspace_ids(state: &EventStreamState) -> (r: Vec<u64>)
    ensures
        r@ == spec_active_ids(state@.workspaces),
{
    let ghost wsv = state@.workspaces;
    let v = &state.workspaces.workspaces;
    let mut i: usize = 0;
    proof {
        assert(wsv.skip(0) =~= wsv);
    }
    while i < v.len()
        invariant
            0 <= i <= v.len(),
            wsv == state@.workspaces,
            wsv.len() == v@.len(),
            v@.len() == v.len(),
            spec_active_ids(wsv) == spec_active_ids(wsv.skip(i as int)),
            wsv == crate::model::ws_views(v@),
        decreases v.len() - i,
    {
        proof {
            assert(wsv.skip(i as int)[0] == wsv[i as int]);
            assert(wsv.skip(i as int).skip(1) =~= wsv.skip(i as int + 1));
            assert(wsv[i as int] == v@[i as int]@);
        }
        if v[i].is_active {
            let mut r: Vec<u64> = Vec::new();
            r.push(v[i].id);
            proof {
                assert(r@ =~= seq![wsv[i as int].id]);
            }
            return r;
        }
        i += 1;
    }
    proof {
        assert(wsv.skip(v@.len() as int) =~= Seq::<WorkspaceV>::empty());
    }
    Vec::new()
}

} // verus!
