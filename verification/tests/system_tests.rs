use state_sync::mux::Multiplexer;
use state_sync::system::{SystemState, SystemStateManager};
use state_sync::watch::{
    parse_u16_content, watch_event, SystemEvent, SystemEventKind, WatchNotification,
};

fn chars(s: &str) -> Vec<char> {
    s.chars().collect()
}

#[test]
fn initial_brightness_projection() {
    let s = SystemState::initialize(150, 255);
    let info = s.state_info();
    assert_eq!(info.brightness, 58);
}

#[test]
fn brightness_event_drives_the_projection_to_zero() {
    let mut s = SystemState::initialize(150, 255);
    s.apply(
        SystemEventKind::Brightness,
        SystemEvent::BrightnessChanged { new_brightness: 0 },
    );
    assert_eq!(s.state_info().brightness, 0);
    assert_eq!(s.brightness.max_brightness, 255);
}

#[test]
fn brightness_projection_extremes() {
    assert_eq!(SystemState::initialize(255, 255).state_info().brightness, 100);
    assert_eq!(SystemState::initialize(0, 255).state_info().brightness, 0);
    assert_eq!(SystemState::initialize(1, 3).state_info().brightness, 33);
}

#[test]
fn attribute_file_parsing() {
    assert_eq!(parse_u16_content(&chars("150\n")), Some(150));
    assert_eq!(parse_u16_content(&chars("  42  ")), Some(42));
    assert_eq!(parse_u16_content(&chars("0")), Some(0));
    assert_eq!(parse_u16_content(&chars("65535")), Some(65535));
    assert_eq!(parse_u16_content(&chars("65536")), None);
    assert_eq!(parse_u16_content(&chars("")), None);
    assert_eq!(parse_u16_content(&chars("  \n")), None);
    assert_eq!(parse_u16_content(&chars("12a")), None);
    assert_eq!(parse_u16_content(&chars("-3")), None);
}

#[test]
fn non_close_write_notifications_emit_nothing() {
    for _ in 0..5 {
        let e = watch_event(
            SystemEventKind::Brightness,
            WatchNotification::Other,
            Some(&chars("150")),
        );
        assert_eq!(e, None);
    }
}

#[test]
fn close_write_emits_one_event_with_the_read_value() {
    let e = watch_event(
        SystemEventKind::Brightness,
        WatchNotification::CloseWrite,
        Some(&chars("0\n")),
    );
    assert_eq!(e, Some(SystemEvent::BrightnessChanged { new_brightness: 0 }));
}

#[test]
fn unreadable_or_unparsable_content_is_swallowed() {
    assert_eq!(
        watch_event(SystemEventKind::Brightness, WatchNotification::CloseWrite, None),
        None
    );
    assert_eq!(
        watch_event(
            SystemEventKind::Brightness,
            WatchNotification::CloseWrite,
            Some(&chars("oops")),
        ),
        None
    );
}

#[test]
fn manager_holds_the_initial_state_and_watch_path() {
    let path = "/sys/class/backlight/intel_backlight/brightness";
    let m = SystemStateManager::new(chars(path), 150, 255);
    assert_eq!(m.state.brightness.brightness, 150);
    assert_eq!(m.state.brightness.max_brightness, 255);
    assert_eq!(m.watch_paths.len(), 1);
    assert_eq!(m.watch_paths[0].0, chars(path));
    assert_eq!(m.watch_paths[0].1, SystemEventKind::Brightness);
}

#[test]
fn merge_ends_only_after_every_source_ends() {
    let mut mux = Multiplexer::new(2);
    assert!(!mux.is_done());
    assert!(mux.is_open(0));
    assert!(mux.is_open(1));
    mux.source_ended(0);
    assert!(!mux.is_done());
    assert!(!mux.is_open(0));
    assert!(mux.is_open(1));
    mux.source_ended(1);
    assert!(mux.is_done());
}

#[test]
fn merge_of_no_sources_is_done_at_once() {
    let mux = Multiplexer::new(0);
    assert!(mux.is_done());
}
