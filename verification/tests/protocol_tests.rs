use state_sync::event::Event;
use state_sync::model::ScrollPos;
use state_sync::protocol::{
    check_subscribe_reply, decode_event_line, event_stream_request, stream_item, DecodeError,
    HandshakeError, StreamItem,
};

fn chars(s: &str) -> Vec<char> {
    s.chars().collect()
}

fn text(v: &[char]) -> String {
    v.iter().collect()
}

#[test]
fn decodes_workspace_activated() {
    let line = chars("{\"WorkspaceActivated\":{\"id\":3,\"focused\":true}}");
    match decode_event_line(&line) {
        Ok(Event::WorkspaceActivated { id, focused }) => {
            assert_eq!(id, 3);
            assert!(focused);
        }
        other => panic!("unexpected decode result: {other:?}"),
    }
}

#[test]
fn decodes_workspaces_changed_with_strings() {
    let line = chars(
        "{\"WorkspacesChanged\":{\"workspaces\":[\
         {\"id\":1,\"idx\":1,\"output\":\"eDP-1\",\"is_active\":true,\"is_focused\":true,\
         \"is_urgent\":false,\"active_window_id\":null},\
         {\"id\":2,\"idx\":2,\"output\":null,\"is_active\":false,\"is_focused\":false,\
         \"is_urgent\":false,\"active_window_id\":7}]}}\n",
    );
    match decode_event_line(&line) {
        Ok(Event::WorkspacesChanged { workspaces }) => {
            assert_eq!(workspaces.len(), 2);
            assert_eq!(text(workspaces[0].output.as_ref().unwrap()), "eDP-1");
            assert!(workspaces[0].is_active);
            assert_eq!(workspaces[1].output, None);
            assert_eq!(workspaces[1].active_window_id, Some(7));
        }
        other => panic!("unexpected decode result: {other:?}"),
    }
}

#[test]
fn decodes_string_escapes() {
    let line = chars(
        "{\"WorkspacesChanged\":{\"workspaces\":[\
         {\"id\":1,\"idx\":1,\"output\":\"a\\\"b\\\\c\\nd\",\"is_active\":true,\
         \"is_focused\":false,\"is_urgent\":false,\"active_window_id\":null}]}}",
    );
    match decode_event_line(&line) {
        Ok(Event::WorkspacesChanged { workspaces }) => {
            assert_eq!(text(workspaces[0].output.as_ref().unwrap()), "a\"b\\c\nd");
        }
        other => panic!("unexpected decode result: {other:?}"),
    }
}

#[test]
fn decodes_window_with_layout() {
    let line = chars(
        "{\"WindowOpenedOrChanged\":{\"window\":{\"id\":9,\"workspace_id\":1,\
         \"is_focused\":true,\"is_floating\":false,\"is_urgent\":false,\
         \"layout\":{\"pos_in_scrolling_layout\":[2,1]}}}}",
    );
    match decode_event_line(&line) {
        Ok(Event::WindowOpenedOrChanged { window }) => {
            assert_eq!(window.id, 9);
            assert_eq!(window.workspace_id, Some(1));
            assert_eq!(
                window.layout.pos_in_scrolling_layout,
                Some(ScrollPos { x: 2, y: 1 })
            );
        }
        other => panic!("unexpected decode result: {other:?}"),
    }
}

#[test]
fn decodes_window_layouts_changed() {
    let line = chars(
        "{\"WindowLayoutsChanged\":{\"changes\":[[9,{\"pos_in_scrolling_layout\":null}],\
         [10,{\"pos_in_scrolling_layout\":[0,0]}]]}}",
    );
    match decode_event_line(&line) {
        Ok(Event::WindowLayoutsChanged { changes }) => {
            assert_eq!(changes.len(), 2);
            assert_eq!(changes[0].id, 9);
            assert_eq!(changes[0].layout.pos_in_scrolling_layout, None);
            assert_eq!(
                changes[1].layout.pos_in_scrolling_layout,
                Some(ScrollPos { x: 0, y: 0 })
            );
        }
        other => panic!("unexpected decode result: {other:?}"),
    }
}

#[test]
fn decodes_keyboard_overview_and_config_events() {
    let kb = chars(
        "{\"KeyboardLayoutsChanged\":{\"keyboard_layouts\":{\"names\":[\"us\",\"de\"],\
         \"current_idx\":1}}}",
    );
    match decode_event_line(&kb) {
        Ok(Event::KeyboardLayoutsChanged { keyboard_layouts }) => {
            assert_eq!(keyboard_layouts.names.len(), 2);
            assert_eq!(text(&keyboard_layouts.names[1]), "de");
            assert_eq!(keyboard_layouts.current_idx, 1);
        }
        other => panic!("unexpected decode result: {other:?}"),
    }
    let ov = chars("{\"OverviewOpenedOrClosed\":{\"is_open\":true}}");
    assert!(matches!(
        decode_event_line(&ov),
        Ok(Event::OverviewOpenedOrClosed { is_open: true })
    ));
    let cfg = chars("{\"ConfigLoaded\":{\"failed\":false}}");
    assert!(matches!(
        decode_event_line(&cfg),
        Ok(Event::ConfigLoaded { failed: false })
    ));
    let sw = chars("{\"KeyboardLayoutSwitched\":{\"idx\":1}}");
    assert!(matches!(
        decode_event_line(&sw),
        Ok(Event::KeyboardLayoutSwitched { idx: 1 })
    ));
    let fc = chars("{\"WindowFocusChanged\":{\"id\":null}}");
    assert!(matches!(
        decode_event_line(&fc),
        Ok(Event::WindowFocusChanged { id: None })
    ));
    let wu = chars("{\"WindowUrgencyChanged\":{\"id\":4,\"urgent\":true}}");
    assert!(matches!(
        decode_event_line(&wu),
        Ok(Event::WindowUrgencyChanged { id: 4, urgent: true })
    ));
    let wau = chars("{\"WorkspaceUrgencyChanged\":{\"id\":4,\"urgent\":false}}");
    assert!(matches!(
        decode_event_line(&wau),
        Ok(Event::WorkspaceUrgencyChanged { id: 4, urgent: false })
    ));
    let awc = chars("{\"WorkspaceActiveWindowChanged\":{\"workspace_id\":2,\"active_window_id\":9}}");
    assert!(matches!(
        decode_event_line(&awc),
        Ok(Event::WorkspaceActiveWindowChanged { workspace_id: 2, active_window_id: Some(9) })
    ));
    let wc = chars("{\"WindowClosed\":{\"id\":12}}");
    assert!(matches!(decode_event_line(&wc), Ok(Event::WindowClosed { id: 12 })));
    let empty = chars("{\"WindowsChanged\":{\"windows\":[]}}");
    match decode_event_line(&empty) {
        Ok(Event::WindowsChanged { windows }) => assert!(windows.is_empty()),
        other => panic!("unexpected decode result: {other:?}"),
    }
}

#[test]
fn malformed_line_is_a_decode_error_not_stream_end() {
    let line = chars("{not json");
    assert!(matches!(decode_event_line(&line), Err(DecodeError::MalformedLine)));
    let item = stream_item(line.len(), &line);
    assert!(matches!(item, StreamItem::Malformed));
    assert!(!matches!(item, StreamItem::End));
    let eof = stream_item(0, &chars(""));
    assert!(matches!(eof, StreamItem::End));
}

#[test]
fn deviations_from_canonical_form_are_rejected() {
    for bad in [
        "{\"WorkspaceActivated\":{\"id\":01,\"focused\":true}}",
        "{\"WorkspaceActivated\":{\"id\":3,\"focused\":true}} ",
        "{\"WorkspaceActivated\": {\"id\":3,\"focused\":true}}",
        "{\"WorkspaceActivated\":{\"id\":3,\"focused\":true}}extra",
        "{\"WorkspaceActivated\":{\"id\":99999999999999999999999,\"focused\":true}}",
        "{\"SomethingElse\":{\"id\":3}}",
        "",
    ] {
        assert!(matches!(decode_event_line(&chars(bad)), Err(DecodeError::MalformedLine)));
    }
}

#[test]
fn handshake_reply_success() {
    assert!(check_subscribe_reply(&chars("{\"Ok\":\"Handled\"}")).is_ok());
    assert!(check_subscribe_reply(&chars("{\"Ok\":\"Handled\"}\n")).is_ok());
}

#[test]
fn handshake_reply_error_payload_is_fatal() {
    match check_subscribe_reply(&chars("{\"Err\":\"no such request\"}\n")) {
        Err(HandshakeError::ErrorReply { message }) => {
            assert_eq!(text(&message), "no such request");
        }
        other => panic!("unexpected handshake result: {other:?}"),
    }
}

#[test]
fn handshake_reply_unexpected_payload_is_fatal() {
    assert!(matches!(
        check_subscribe_reply(&chars("{\"Ok\":\"FocusedWindow\"}")),
        Err(HandshakeError::UnexpectedReply)
    ));
    assert!(matches!(
        check_subscribe_reply(&chars("garbage")),
        Err(HandshakeError::UnexpectedReply)
    ));
}

#[test]
fn the_subscription_request_is_one_json_line() {
    let req = event_stream_request();
    assert_eq!(text(&req), "\"EventStream\"\n");
}
