use state_sync::api::{PrintStateInfo, StateInfoError};
use state_sync::event::Event;
use state_sync::eww::active_workspace_ids;
use state_sync::model::{EventStreamState, ScrollPos, Window, WindowLayout, Workspace};
use state_sync::serialize::SerializableState;
use state_sync::system::SystemState;
use state_sync::watch::{parse_u16_content, watch_event, SystemEventKind, WatchNotification};

fn chars(s: &str) -> Vec<char> {
    s.chars().collect()
}

fn text(v: &[char]) -> String {
    v.iter().collect()
}

fn ws(id: u64, idx: u8, output: Option<&str>, is_active: bool) -> Workspace {
    Workspace {
        id,
        idx,
        output: output.map(chars),
        is_active,
        is_focused: false,
        is_urgent: false,
        active_window_id: None,
    }
}

fn win(
    id: u64,
    workspace_id: u64,
    is_focused: bool,
    is_floating: bool,
    pos: Option<(usize, usize)>,
) -> Window {
    Window {
        id,
        workspace_id: Some(workspace_id),
        is_focused,
        is_floating,
        is_urgent: false,
        layout: WindowLayout {
            pos_in_scrolling_layout: pos.map(|(x, y)| ScrollPos { x, y }),
        },
    }
}

#[test]
fn activation_event_drives_the_projection() {
    let mut s = EventStreamState::new();
    s.apply(Event::WorkspacesChanged {
        workspaces: vec![ws(1, 1, Some("eDP-1"), true), ws(3, 2, Some("eDP-1"), false)],
    });
    s.apply(Event::WorkspaceActivated { id: 3, focused: true });
    let info = s.state_info().unwrap();
    assert_eq!(info.workspaces.len(), 1);
    assert_eq!(text(&info.workspaces[0].0), "eDP-1");
    assert_eq!(info.workspaces[0].1.active_workspace, 2);
    assert_eq!(info.workspaces[0].1.nof_workspaces, 2);
}

#[test]
fn projection_counts_and_focus_per_output() {
    let mut s = EventStreamState::new();
    s.apply(Event::WorkspacesChanged {
        workspaces: vec![
            ws(1, 1, Some("eDP-1"), true),
            ws(2, 2, Some("eDP-1"), false),
            ws(3, 1, Some("HDMI-A-1"), true),
        ],
    });
    s.apply(Event::WindowsChanged {
        windows: vec![
            win(10, 1, false, false, Some((0, 0))),
            win(11, 1, true, true, Some((2, 0))),
            win(12, 3, false, false, None),
        ],
    });
    let info = s.state_info().unwrap();
    assert_eq!(info.workspaces.len(), 2);
    assert_eq!(text(&info.workspaces[0].0), "eDP-1");
    assert_eq!(info.workspaces[0].1.nof_workspaces, 2);
    assert_eq!(text(&info.workspaces[1].0), "HDMI-A-1");
    assert_eq!(info.workspaces[1].1.nof_workspaces, 1);
    assert_eq!(info.windows.len(), 2);
    let edp = &info.windows[0].1;
    assert_eq!(edp.nof_windows, 2);
    assert_eq!(edp.focused_window, Some(2));
    assert_eq!(edp.focused_window_floating, Some(true));
    let hdmi = &info.windows[1].1;
    assert_eq!(hdmi.nof_windows, 1);
    assert_eq!(hdmi.focused_window, None);
    assert_eq!(hdmi.focused_window_floating, None);
}

#[test]
fn missing_active_workspace_is_a_fatal_projection_error() {
    let mut s = EventStreamState::new();
    s.apply(Event::WorkspacesChanged {
        workspaces: vec![ws(1, 1, Some("eDP-1"), false)],
    });
    match s.state_info() {
        Err(StateInfoError::MissingActiveWorkspace { output }) => {
            assert_eq!(text(&output), "eDP-1");
        }
        Ok(_) => panic!("projection succeeded without an active workspace"),
    }
    match s.stacking_info() {
        Err(StateInfoError::MissingActiveWorkspace { output }) => {
            assert_eq!(text(&output), "eDP-1");
        }
        Ok(_) => panic!("stacking projection succeeded without an active workspace"),
    }
}

#[test]
fn unassigned_workspaces_do_not_appear() {
    let mut s = EventStreamState::new();
    s.apply(Event::WorkspacesChanged {
        workspaces: vec![ws(1, 1, None, false), ws(2, 1, Some("eDP-1"), true)],
    });
    let info = s.state_info().unwrap();
    assert_eq!(info.workspaces.len(), 1);
    assert_eq!(info.workspaces[0].1.nof_workspaces, 1);
}

#[test]
fn print_state_info_matches_state_info() {
    let mut s = EventStreamState::new();
    s.apply(Event::WorkspacesChanged {
        workspaces: vec![ws(1, 1, Some("eDP-1"), true)],
    });
    let a = s.state_info().unwrap();
    let b = s.print_state_info().unwrap();
    assert_eq!(a.workspaces.len(), b.workspaces.len());
    assert_eq!(a.workspaces[0].1, b.workspaces[0].1);
}

#[test]
fn stacking_orders_columns_and_picks_topmost() {
    let mut s = EventStreamState::new();
    s.apply(Event::WorkspacesChanged {
        workspaces: vec![ws(1, 1, Some("eDP-1"), true)],
    });
    s.apply(Event::WindowsChanged {
        windows: vec![
            win(20, 1, false, false, Some((3, 1))),
            win(21, 1, false, false, Some((0, 1))),
            win(22, 1, true, false, Some((3, 0))),
            win(23, 1, false, false, Some((0, 0))),
            win(24, 1, false, false, None),
        ],
    });
    let info = s.stacking_info().unwrap();
    assert_eq!(info.workspaces.len(), 1);
    assert_eq!(info.workspaces[0].1.active_workspace, 1);
    assert_eq!(info.workspaces[0].1.workspaces, vec![1u8]);
    let wi = &info.windows[0].1;
    assert_eq!(wi.window_ids, vec![23, 22]);
    assert_eq!(wi.focused_window_id, Some(22));
}

#[test]
fn stacking_keeps_stored_order_on_equal_rows() {
    let mut s = EventStreamState::new();
    s.apply(Event::WorkspacesChanged {
        workspaces: vec![ws(1, 1, Some("eDP-1"), true)],
    });
    s.apply(Event::WindowsChanged {
        windows: vec![
            win(30, 1, false, false, Some((0, 5))),
            win(31, 1, false, false, Some((0, 5))),
            win(32, 1, false, false, Some((0, 1))),
        ],
    });
    let info = s.stacking_info().unwrap();
    assert_eq!(info.windows[0].1.window_ids, vec![32]);
    assert_eq!(info.windows[0].1.focused_window_id, None);
}

#[test]
fn stacking_without_layout_data_yields_no_slots() {
    let mut s = EventStreamState::new();
    s.apply(Event::WorkspacesChanged {
        workspaces: vec![ws(1, 1, Some("eDP-1"), true)],
    });
    s.apply(Event::WindowsChanged {
        windows: vec![win(40, 1, true, false, None)],
    });
    let info = s.stacking_info().unwrap();
    assert!(info.windows[0].1.window_ids.is_empty());
    assert_eq!(info.windows[0].1.focused_window_id, None);
}

#[test]
fn widget_ids_follow_the_first_active_workspace() {
    let mut s = EventStreamState::new();
    assert!(active_workspace_ids(&s).is_empty());
    s.apply(Event::WorkspacesChanged {
        workspaces: vec![ws(5, 1, Some("eDP-1"), false), ws(6, 2, Some("eDP-1"), true)],
    });
    assert_eq!(active_workspace_ids(&s), vec![6]);
}

#[test]
fn snapshot_copies_every_facet() {
    let mut s = EventStreamState::new();
    s.apply(Event::WorkspacesChanged {
        workspaces: vec![ws(1, 1, Some("eDP-1"), true)],
    });
    s.apply(Event::WindowsChanged { windows: vec![win(10, 1, true, false, None)] });
    s.apply(Event::OverviewOpenedOrClosed { is_open: true });
    let snap = SerializableState::from(&s);
    assert_eq!(snap.workspaces.workspaces.len(), 1);
    assert_eq!(snap.workspaces.workspaces[0].id, 1);
    assert_eq!(snap.windows.windows.len(), 1);
    assert!(snap.keyboard_layouts.keyboard_layouts.is_none());
    assert!(snap.overview.is_open);
    assert!(!snap.config.failed);
}

#[test]
fn stacking_allows_many_workspaces_spread_over_outputs() {
    // 300 workspaces in all, 150 per output: within the original's
    // domain, since only each output's own count must fit the index list
    let mut workspaces = Vec::new();
    for i in 0..300u64 {
        let output = if i < 150 { "eDP-1" } else { "HDMI-A-1" };
        workspaces.push(ws(i + 1, 1, Some(output), i == 0 || i == 150));
    }
    let mut s = EventStreamState::new();
    s.apply(Event::WorkspacesChanged { workspaces });
    assert!(s.stacking_counts_fit());
    let info = s.stacking_info().unwrap();
    assert_eq!(info.workspaces.len(), 2);
    assert_eq!(info.workspaces[0].1.workspaces.len(), 150);
    assert_eq!(info.workspaces[1].1.workspaces.len(), 150);
}

#[test]
fn stacking_index_list_limit_is_per_output() {
    // one output with 256 workspaces exceeds what its index list can hold
    let mut workspaces = Vec::new();
    for i in 0..256u64 {
        workspaces.push(ws(i + 1, 1, Some("eDP-1"), i == 0));
    }
    let mut s = EventStreamState::new();
    s.apply(Event::WorkspacesChanged { workspaces });
    assert!(!s.stacking_counts_fit());
}

#[test]
fn scenario_subscribe_then_activate_then_project() {
    // the handshake reply is the success acknowledgement
    let reply: Vec<char> = "{\"Ok\":\"Handled\"}\n".chars().collect();
    assert!(state_sync::protocol::check_subscribe_reply(&reply).is_ok());
    // the inbound lines register two workspaces on eDP-1 and activate the
    // one with id 3 and index 2
    let mut s = EventStreamState::new();
    for line in [
        "{\"WorkspacesChanged\":{\"workspaces\":[\
         {\"id\":1,\"idx\":1,\"output\":\"eDP-1\",\"is_active\":true,\"is_focused\":true,\
         \"is_urgent\":false,\"active_window_id\":null},\
         {\"id\":3,\"idx\":2,\"output\":\"eDP-1\",\"is_active\":false,\"is_focused\":false,\
         \"is_urgent\":false,\"active_window_id\":null}]}}\n",
        "{\"WorkspaceActivated\":{\"id\":3,\"focused\":true}}\n",
    ] {
        let event = state_sync::protocol::decode_event_line(&line.chars().collect()).unwrap();
        assert!(state_sync::event::check_event_valid(&s, &event));
        s.apply(event);
    }
    // the projection shows the activated workspace's 1-based index
    let info = s.state_info().unwrap();
    assert_eq!(text(&info.workspaces[0].0), "eDP-1");
    assert_eq!(info.workspaces[0].1.active_workspace, 2);
    assert_eq!(info.workspaces[0].1.nof_workspaces, 2);
}

#[test]
fn scenario_brightness_files_then_close_write() {
    // the brightness file holds "150", the max-brightness file "255"
    let brightness = parse_u16_content(&"150\n".chars().collect()).unwrap();
    let max = parse_u16_content(&"255\n".chars().collect()).unwrap();
    let mut s = SystemState::initialize(brightness, max);
    assert_eq!(s.state_info().brightness, 58);
    // a later close-write notification re-reads content "0"
    let content: Vec<char> = "0\n".chars().collect();
    let event = watch_event(
        SystemEventKind::Brightness,
        WatchNotification::CloseWrite,
        Some(&content),
    )
    .unwrap();
    s.apply(SystemEventKind::Brightness, event);
    assert_eq!(s.state_info().brightness, 0);
}
