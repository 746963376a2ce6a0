use crosszones::snapping::action::LayoutAction;
use crosszones::snapping::common::ScreenDimensions;
use crosszones::snapping::snap::{
    handle_drop, snap_framed_window, snap_window, with_borders, without_borders, FrameInsets, SnapError,
};
use crosszones::snapping::window_rect::WindowRect;
use crosszones::snapping::window_state::{
    get_window_state, insert_window_state, WindowState, WindowStateStore,
};
use crosszones::store::zone_layouts::{Zone, ZoneLayout};

fn rect(x: i32, y: i32, width: i32, height: i32) -> WindowRect {
    WindowRect { x, y, width, height }
}

fn screen() -> ScreenDimensions {
    ScreenDimensions { x: 0, y: 0, width: 1920, height: 1080 }
}

fn zone(id: &str, x: u32, y: u32, width: u32, height: u32, number: u32) -> Zone {
    Zone { id: id.to_string(), x, y, width, height, number }
}

fn halves() -> ZoneLayout {
    ZoneLayout {
        id: "halves".to_string(),
        name: "Halves".to_string(),
        zones: vec![
            zone("left", 0, 0, 50_000_000, 100_000_000, 1),
            zone("right", 50_000_000, 0, 50_000_000, 100_000_000, 2),
        ],
    }
}

#[test]
fn snapping_gives_the_rect_to_set() {
    let mut store = WindowStateStore::new();
    let r = snap_window(&mut store, "w", LayoutAction::TopRight, screen(), rect(5, 5, 100, 100), None);
    assert_eq!(r, Ok(rect(960, 0, 960, 540)));
    assert_eq!(get_window_state(&store, "w").unwrap().window_rect, rect(960, 0, 960, 540));
}

#[test]
fn snapping_beyond_the_machine_fails_and_stores_nothing() {
    let mut store = WindowStateStore::new();
    let r = snap_window(&mut store, "w", LayoutAction::Larger, screen(), rect(0, 0, 10, 2_000_000_000), None);
    assert_eq!(r, Err(SnapError::ConfigurationError));
    assert!(get_window_state(&store, "w").is_none());
}

#[test]
fn snapping_on_a_screen_past_the_machine_fails() {
    let mut store = WindowStateStore::new();
    let far = ScreenDimensions { x: 2_000_000_000, y: 0, width: 2_000_000_000, height: 1080 };
    let r = snap_window(&mut store, "w", LayoutAction::MoveRight, far, rect(2_000_000_000, 0, 2_000_000_000, 10), None);
    assert_eq!(r, Err(SnapError::ConfigurationError));
}

#[test]
fn a_drop_in_a_zone_snaps_to_it() {
    let mut store = WindowStateStore::new();
    let layout = halves();
    let r = handle_drop(&mut store, "w", Some(&layout), screen(), rect(900, 300, 400, 300), 1200, 500);
    assert_eq!(r, Ok(Some(rect(960, 0, 960, 1080))));
    assert_eq!(get_window_state(&store, "w").unwrap().window_rect, rect(960, 0, 960, 1080));
    let r = handle_drop(&mut store, "w", Some(&layout), screen(), rect(900, 300, 400, 300), 100, 100);
    assert_eq!(r, Ok(Some(rect(0, 0, 960, 1080))));
}

#[test]
fn a_drop_outside_every_zone_does_nothing() {
    let mut store = WindowStateStore::new();
    let layout = halves();
    let r = handle_drop(&mut store, "w", Some(&layout), screen(), rect(900, 300, 400, 300), 2500, 500);
    assert_eq!(r, Ok(None));
    assert!(get_window_state(&store, "w").is_none());
}

#[test]
fn a_drop_without_an_active_layout_is_not_found() {
    let mut store = WindowStateStore::new();
    let r = handle_drop(&mut store, "w", None, screen(), rect(900, 300, 400, 300), 100, 100);
    assert_eq!(r, Err(SnapError::NotFound));
    assert!(get_window_state(&store, "w").is_none());
}

#[test]
fn a_drop_applies_the_first_zone_with_the_number_of_the_zone_under_the_pointer() {
    let layout = ZoneLayout {
        id: "l".to_string(),
        name: "n".to_string(),
        zones: vec![
            zone("a", 0, 0, 50_000_000, 50_000_000, 1),
            zone("b", 50_000_000, 50_000_000, 50_000_000, 50_000_000, 1),
        ],
    };
    let mut store = WindowStateStore::new();
    let r = handle_drop(&mut store, "w", Some(&layout), screen(), rect(0, 0, 10, 10), 1500, 800);
    assert_eq!(r, Ok(Some(rect(0, 0, 960, 540))));
}

#[test]
fn a_zone_beyond_the_machine_is_a_configuration_error() {
    let layout = ZoneLayout {
        id: "l".to_string(),
        name: "n".to_string(),
        zones: vec![zone("a", 0, 0, 4_000_000_000, 100_000_000, 1)],
    };
    let wide = ScreenDimensions { x: 0, y: 0, width: 2_000_000_000, height: 1080 };
    let mut store = WindowStateStore::new();
    let r = handle_drop(&mut store, "w", Some(&layout), wide, rect(0, 0, 10, 10), 5, 5);
    assert_eq!(r, Err(SnapError::ConfigurationError));
}

#[test]
fn snap_errors_have_their_words() {
    assert_eq!(SnapError::NotFound.message(), "No window or no active zone layout");
    assert_eq!(SnapError::PlatformError.message(), "Failed to read or set the window's geometry");
    assert_eq!(SnapError::ConfigurationError.message(), "The layout gives no rectangle on this screen");
}

#[test]
fn borders_come_off_and_go_on_again() {
    let insets = FrameInsets { x: 7, y: 0, width: 14, height: 7 };
    let outer = rect(93, 50, 814, 607);
    let inner = without_borders(outer, insets).unwrap();
    assert_eq!(inner, rect(100, 50, 800, 600));
    assert_eq!(with_borders(inner, insets), Some(outer));
    assert_eq!(with_borders(rect(0, 0, 960, 1080), insets), Some(rect(-7, 0, 974, 1087)));
}

#[test]
fn borders_beyond_the_machine_give_nothing() {
    let insets = FrameInsets { x: 1, y: 0, width: 1, height: 0 };
    assert_eq!(without_borders(rect(i32::MAX, 0, 10, 10), insets), None);
    assert_eq!(with_borders(rect(i32::MIN, 0, 10, 10), insets), None);
    assert_eq!(with_borders(rect(0, 0, i32::MAX, 10), insets), None);
    assert_eq!(without_borders(rect(0, 0, i32::MIN, 10), insets), None);
}

#[test]
fn the_store_keeps_the_last_state_of_each_window() {
    let mut store = WindowStateStore::new();
    assert!(get_window_state(&store, "a").is_none());
    insert_window_state(&mut store, "a", WindowState::new("a", rect(1, 2, 3, 4)));
    insert_window_state(&mut store, "b", WindowState::new("b", rect(5, 6, 7, 8)));
    assert_eq!(get_window_state(&store, "a"), Some(WindowState::new("a", rect(1, 2, 3, 4))));
    assert_eq!(get_window_state(&store, "b"), Some(WindowState::new("b", rect(5, 6, 7, 8))));
    insert_window_state(&mut store, "a", WindowState::new("a", rect(9, 9, 9, 9)));
    assert_eq!(get_window_state(&store, "a").unwrap().window_rect, rect(9, 9, 9, 9));
    assert_eq!(get_window_state(&store, "b").unwrap().window_rect, rect(5, 6, 7, 8));
    assert!(get_window_state(&store, "").is_none());
    assert!(get_window_state(&store, "A").is_none());
}

#[test]
fn a_state_is_stored_under_the_key_it_is_given() {
    let mut store = WindowStateStore::new();
    insert_window_state(&mut store, "key", WindowState::new("other", rect(1, 1, 1, 1)));
    let got = get_window_state(&store, "key").unwrap();
    assert_eq!(got.window_id, "other");
    assert!(get_window_state(&store, "other").is_none());
}

#[test]
fn a_new_state_holds_what_it_was_given() {
    let state = WindowState::new("win", rect(1, 2, 3, 4));
    assert_eq!(state.window_id, "win");
    assert_eq!(state.window_rect, rect(1, 2, 3, 4));
    assert_eq!(state.duplicate(), state);
    assert_eq!(WindowRect::new(1, 2, 3, 4), rect(1, 2, 3, 4));
}

#[test]
fn a_window_with_borders_is_snapped_by_its_visible_frame() {
    let insets = FrameInsets { x: 7, y: 0, width: 14, height: 7 };
    let mut store = WindowStateStore::new();
    let r = snap_framed_window(&mut store, "w", LayoutAction::LeftHalf, screen(), rect(93, 50, 814, 607), insets, None);
    assert_eq!(r, Ok(rect(-7, 0, 974, 1087)));
    assert_eq!(get_window_state(&store, "w").unwrap().window_rect, rect(0, 0, 960, 1080));
    let r = snap_framed_window(&mut store, "w", LayoutAction::Smaller, screen(), rect(93, 50, 814, 607), insets, None);
    assert_eq!(r, Ok(rect(173, 110, 654, 487)));
}

#[test]
fn a_reported_rect_without_a_visible_frame_is_a_platform_error() {
    let insets = FrameInsets { x: 1, y: 0, width: 0, height: 0 };
    let mut store = WindowStateStore::new();
    let r = snap_framed_window(&mut store, "w", LayoutAction::LeftHalf, screen(), rect(i32::MAX, 0, 10, 10), insets, None);
    assert_eq!(r, Err(SnapError::PlatformError));
    assert!(get_window_state(&store, "w").is_none());
}

#[test]
fn borders_beyond_the_machine_are_a_configuration_error() {
    let insets = FrameInsets { x: 0, y: 0, width: 10, height: 0 };
    let wide = ScreenDimensions { x: 0, y: 0, width: i32::MAX, height: 1080 };
    let mut store = WindowStateStore::new();
    let r = snap_framed_window(&mut store, "w", LayoutAction::Maximize, wide, rect(0, 0, 100, 100), insets, None);
    assert_eq!(r, Err(SnapError::ConfigurationError));
    assert_eq!(get_window_state(&store, "w").unwrap().window_rect, rect(0, 0, i32::MAX, 1080));
    let r = snap_framed_window(&mut store, "v", LayoutAction::Larger, screen(), rect(0, 0, 2_000_000_000, 100), insets, None);
    assert_eq!(r, Err(SnapError::ConfigurationError));
    assert!(get_window_state(&store, "v").is_none());
}
