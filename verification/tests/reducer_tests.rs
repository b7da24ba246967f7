use state_sync::event::{check_event_valid, is_workspace_event, Event, WindowLayoutChange};
use state_sync::model::{
    EventStreamState, KeyboardLayouts, ScrollPos, Window, WindowLayout, Workspace,
};
use state_sync::reducer::NiriState;

fn chars(s: &str) -> Vec<char> {
    s.chars().collect()
}

fn ws(id: u64, idx: u8, output: &str, is_active: bool) -> Workspace {
    Workspace {
        id,
        idx,
        output: Some(chars(output)),
        is_active,
        is_focused: false,
        is_urgent: false,
        active_window_id: None,
    }
}

fn win(id: u64, workspace_id: Option<u64>, is_focused: bool, pos: Option<(usize, usize)>) -> Window {
    Window {
        id,
        workspace_id,
        is_focused,
        is_floating: false,
        is_urgent: false,
        layout: WindowLayout {
            pos_in_scrolling_layout: pos.map(|(x, y)| ScrollPos { x, y }),
        },
    }
}

#[test]
fn workspaces_changed_replaces_the_facet() {
    let mut s = EventStreamState::new();
    let e = Event::WorkspacesChanged {
        workspaces: vec![ws(1, 1, "eDP-1", true), ws(2, 2, "eDP-1", false)],
    };
    assert!(check_event_valid(&s, &e));
    s.apply(e);
    assert_eq!(s.workspaces.workspaces.len(), 2);
    assert!(s.workspaces.workspaces[0].is_active);
    assert!(!s.workspaces.workspaces[1].is_active);
}

#[test]
fn workspace_activated_moves_the_active_flag() {
    let mut s = EventStreamState::new();
    s.apply(Event::WorkspacesChanged {
        workspaces: vec![ws(1, 1, "eDP-1", true), ws(2, 2, "eDP-1", false)],
    });
    let e = Event::WorkspaceActivated { id: 2, focused: true };
    assert!(check_event_valid(&s, &e));
    s.apply(e);
    assert!(!s.workspaces.workspaces[0].is_active);
    assert!(s.workspaces.workspaces[1].is_active);
    assert!(s.workspaces.workspaces[1].is_focused);
}

#[test]
fn workspace_activated_leaves_other_outputs_alone() {
    let mut s = EventStreamState::new();
    s.apply(Event::WorkspacesChanged {
        workspaces: vec![ws(1, 1, "eDP-1", true), ws(2, 1, "HDMI-A-1", true), ws(3, 2, "eDP-1", false)],
    });
    s.apply(Event::WorkspaceActivated { id: 3, focused: false });
    assert!(!s.workspaces.workspaces[0].is_active);
    assert!(s.workspaces.workspaces[1].is_active);
    assert!(s.workspaces.workspaces[2].is_active);
}

#[test]
fn activation_applied_twice_equals_once() {
    let mut once = EventStreamState::new();
    once.apply(Event::WorkspacesChanged {
        workspaces: vec![ws(1, 1, "eDP-1", true), ws(2, 2, "eDP-1", false)],
    });
    let mut twice = EventStreamState::new();
    twice.apply(Event::WorkspacesChanged {
        workspaces: vec![ws(1, 1, "eDP-1", true), ws(2, 2, "eDP-1", false)],
    });
    once.apply(Event::WorkspaceActivated { id: 2, focused: true });
    twice.apply(Event::WorkspaceActivated { id: 2, focused: true });
    twice.apply(Event::WorkspaceActivated { id: 2, focused: true });
    let a = once.state_info().unwrap();
    let b = twice.state_info().unwrap();
    assert_eq!(a.workspaces.len(), b.workspaces.len());
    assert_eq!(a.workspaces[0].0, b.workspaces[0].0);
    assert_eq!(a.workspaces[0].1, b.workspaces[0].1);
}

#[test]
fn workspace_urgency_and_active_window() {
    let mut s = EventStreamState::new();
    s.apply(Event::WorkspacesChanged { workspaces: vec![ws(7, 1, "eDP-1", true)] });
    s.apply(Event::WorkspaceUrgencyChanged { id: 7, urgent: true });
    assert!(s.workspaces.workspaces[0].is_urgent);
    s.apply(Event::WorkspaceActiveWindowChanged { workspace_id: 7, active_window_id: Some(40) });
    assert_eq!(s.workspaces.workspaces[0].active_window_id, Some(40));
}

#[test]
fn window_open_steals_focus() {
    let mut s = EventStreamState::new();
    s.apply(Event::WorkspacesChanged { workspaces: vec![ws(1, 1, "eDP-1", true)] });
    s.apply(Event::WindowsChanged {
        windows: vec![win(10, Some(1), true, None), win(11, Some(1), false, None)],
    });
    s.apply(Event::WindowOpenedOrChanged { window: win(12, Some(1), true, None) });
    assert_eq!(s.windows.windows.len(), 3);
    assert!(!s.windows.windows[0].is_focused);
    assert!(!s.windows.windows[1].is_focused);
    assert!(s.windows.windows[2].is_focused);
}

#[test]
fn window_open_replaces_an_existing_id() {
    let mut s = EventStreamState::new();
    s.apply(Event::WorkspacesChanged { workspaces: vec![ws(1, 1, "eDP-1", true)] });
    s.apply(Event::WindowsChanged { windows: vec![win(10, Some(1), false, None)] });
    s.apply(Event::WindowOpenedOrChanged { window: win(10, Some(1), false, Some((2, 0))) });
    assert_eq!(s.windows.windows.len(), 1);
    assert_eq!(
        s.windows.windows[0].layout.pos_in_scrolling_layout,
        Some(ScrollPos { x: 2, y: 0 })
    );
}

#[test]
fn window_closed_and_focus_changed() {
    let mut s = EventStreamState::new();
    s.apply(Event::WorkspacesChanged { workspaces: vec![ws(1, 1, "eDP-1", true)] });
    s.apply(Event::WindowsChanged {
        windows: vec![win(10, Some(1), true, None), win(11, Some(1), false, None)],
    });
    s.apply(Event::WindowClosed { id: 10 });
    assert_eq!(s.windows.windows.len(), 1);
    assert_eq!(s.windows.windows[0].id, 11);
    s.apply(Event::WindowFocusChanged { id: Some(11) });
    assert!(s.windows.windows[0].is_focused);
    s.apply(Event::WindowFocusChanged { id: None });
    assert!(!s.windows.windows[0].is_focused);
}

#[test]
fn window_layouts_changed_updates_each_window() {
    let mut s = EventStreamState::new();
    s.apply(Event::WorkspacesChanged { workspaces: vec![ws(1, 1, "eDP-1", true)] });
    s.apply(Event::WindowsChanged {
        windows: vec![win(10, Some(1), false, Some((0, 0))), win(11, Some(1), false, Some((1, 0)))],
    });
    s.apply(Event::WindowLayoutsChanged {
        changes: vec![
            WindowLayoutChange {
                id: 10,
                layout: WindowLayout { pos_in_scrolling_layout: Some(ScrollPos { x: 5, y: 1 }) },
            },
            WindowLayoutChange {
                id: 11,
                layout: WindowLayout { pos_in_scrolling_layout: None },
            },
        ],
    });
    assert_eq!(
        s.windows.windows[0].layout.pos_in_scrolling_layout,
        Some(ScrollPos { x: 5, y: 1 })
    );
    assert_eq!(s.windows.windows[1].layout.pos_in_scrolling_layout, None);
}

#[test]
fn keyboard_overview_and_config_facets() {
    let mut s = EventStreamState::new();
    s.apply(Event::KeyboardLayoutsChanged {
        keyboard_layouts: KeyboardLayouts {
            names: vec![chars("us"), chars("de")],
            current_idx: 0,
        },
    });
    s.apply(Event::KeyboardLayoutSwitched { idx: 1 });
    assert_eq!(s.keyboard_layouts.keyboard_layouts.as_ref().unwrap().current_idx, 1);
    s.apply(Event::OverviewOpenedOrClosed { is_open: true });
    assert!(s.overview.is_open);
    s.apply(Event::ConfigLoaded { failed: true });
    assert!(s.config.failed);
}

#[test]
fn invalid_events_are_detected() {
    let s = EventStreamState::new();
    assert!(!check_event_valid(&s, &Event::WorkspaceActivated { id: 9, focused: false }));
    assert!(!check_event_valid(&s, &Event::WindowClosed { id: 9 }));
    assert!(!check_event_valid(&s, &Event::KeyboardLayoutSwitched { idx: 0 }));
    let duplicate_ids = Event::WorkspacesChanged {
        workspaces: vec![ws(1, 1, "eDP-1", true), ws(1, 2, "eDP-1", false)],
    };
    assert!(!check_event_valid(&s, &duplicate_ids));
    let two_active = Event::WorkspacesChanged {
        workspaces: vec![ws(1, 1, "eDP-1", true), ws(2, 2, "eDP-1", true)],
    };
    assert!(!check_event_valid(&s, &two_active));
    let dangling = Event::WindowsChanged { windows: vec![win(10, Some(1), false, None)] };
    assert!(!check_event_valid(&s, &dangling));
}

#[test]
fn workspace_event_filter() {
    assert!(is_workspace_event(&Event::WorkspaceActivated { id: 1, focused: false }));
    assert!(is_workspace_event(&Event::WorkspacesChanged { workspaces: vec![] }));
    assert!(!is_workspace_event(&Event::WindowClosed { id: 1 }));
    assert!(!is_workspace_event(&Event::ConfigLoaded { failed: false }));
}

#[test]
fn niri_state_wrapper_applies_and_copies() {
    let mut s = NiriState::default();
    let leftover = s.apply(Event::WorkspacesChanged {
        workspaces: vec![ws(1, 1, "eDP-1", true)],
    });
    assert!(leftover.is_none());
    let copied = s.workspaces_state();
    assert_eq!(copied.len(), 1);
    assert_eq!(copied[0].id, 1);
    assert!(s.windows_state().is_empty());
}
