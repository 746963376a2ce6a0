use crosszones::drag_drop::session::WindowHandle;
use crosszones::snapping::common::ScreenDimensions;
use crosszones::snapping::snap::SnapError;
use crosszones::window::locate::get_frontmost_window;
use crosszones::snapping::window_rect::WindowRect;
use crosszones::store::zone_layouts::Zone;
use crosszones::window::window_manager::{on_window_event, WindowEventStep, PRIMARY_WINDOW_NAME};
use crosszones::zones::zone_layout_editor::{
    create_zone_editor_windows, get_all_screens, get_primary_screen_dimensions, get_screen_dimensions, Display,
};
use crosszones::zones::zone_windows::{
    zone_window_label, zone_window_rect, zone_window_title, ZoneWindowStep, ZoneWindows,
};

fn display(x: i32, y: i32, width: u32, height: u32, is_primary: bool) -> Display {
    Display { x, y, width, height, is_primary }
}

#[test]
fn a_closing_zone_window_is_forgotten() {
    assert_eq!(
        on_window_event("zone-abc", true, false),
        WindowEventStep::ForgetZoneWindow { zone_id: "abc".to_string() }
    );
    assert_eq!(
        on_window_event("zone-overlay-0", true, true),
        WindowEventStep::ForgetZoneWindow { zone_id: "overlay-0".to_string() }
    );
    assert_eq!(on_window_event("zone-", true, true), WindowEventStep::ForgetZoneWindow { zone_id: "".to_string() });
    assert_eq!(on_window_event("zone-abc", false, true), WindowEventStep::Ignore);
}

#[test]
fn the_main_window_hides_to_the_tray_where_the_setting_says_so() {
    assert_eq!(PRIMARY_WINDOW_NAME, "crosszones");
    assert_eq!(on_window_event("crosszones", true, true), WindowEventStep::HideToTray);
    assert_eq!(on_window_event("crosszones", true, false), WindowEventStep::Ignore);
    assert_eq!(on_window_event("crosszones", false, true), WindowEventStep::Ignore);
}

#[test]
fn other_windows_are_left_alone() {
    assert_eq!(on_window_event("settings", true, true), WindowEventStep::Ignore);
    assert_eq!(on_window_event("zone", true, true), WindowEventStep::Ignore);
    assert_eq!(on_window_event("", true, true), WindowEventStep::Ignore);
    assert_eq!(on_window_event("Zone-a", true, true), WindowEventStep::Ignore);
}

#[test]
fn zone_windows_are_labelled_and_titled() {
    assert_eq!(zone_window_label("abc"), "zone-abc");
    assert_eq!(zone_window_label(""), "zone-");
    assert_eq!(zone_window_title(0), "Zone 0");
    assert_eq!(zone_window_title(42), "Zone 42");
    assert_eq!(zone_window_title(4294967295), "Zone 4294967295");
}

#[test]
fn a_zone_window_covers_the_zones_box() {
    let screen = ScreenDimensions { x: 100, y: 50, width: 1920, height: 1080 };
    let zone = Zone { id: "z".to_string(), x: 25_000_000, y: 50_000_000, width: 50_000_000, height: 25_000_000, number: 1 };
    assert_eq!(zone_window_rect(&zone, screen), Some(WindowRect { x: 580, y: 590, width: 960, height: 270 }));
    let far = ScreenDimensions { x: 2_000_000_000, y: 0, width: 2_000_000_000, height: 1080 };
    assert_eq!(zone_window_rect(&zone, far), None);
}

#[test]
fn a_zone_window_is_made_once_and_then_moved() {
    let mut windows = ZoneWindows::new();
    assert_eq!(windows.create_zone_window("a"), ZoneWindowStep::Create);
    assert!(!windows.has_zone_window("a"));
    windows.insert_zone_window("a");
    assert!(windows.has_zone_window("a"));
    assert_eq!(windows.create_zone_window("a"), ZoneWindowStep::Update);
    assert_eq!(windows.create_zone_window("b"), ZoneWindowStep::Create);
    windows.insert_zone_window("a");
    assert!(windows.remove_zone_window_from_map("a"));
    assert!(!windows.has_zone_window("a"));
    assert_eq!(windows.create_zone_window("a"), ZoneWindowStep::Create);
}

#[test]
fn forgetting_a_window_leaves_the_others() {
    let mut windows = ZoneWindows::new();
    windows.insert_zone_window("a");
    windows.insert_zone_window("b");
    windows.insert_zone_window("c");
    assert!(windows.remove_zone_window_from_map("b"));
    assert!(!windows.remove_zone_window_from_map("b"));
    assert!(!windows.remove_zone_window_from_map("x"));
    assert!(windows.has_zone_window("a"));
    assert!(!windows.has_zone_window("b"));
    assert!(windows.has_zone_window("c"));
}

#[test]
fn screens_are_named_by_their_place() {
    let displays = vec![display(0, 0, 1920, 1080, true), display(1920, -100, 2560, 1440, false)];
    let screens = get_all_screens(&displays);
    assert_eq!(screens.len(), 2);
    assert_eq!(screens[0].id, "screen-0");
    assert_eq!((screens[0].x, screens[0].y, screens[0].width, screens[0].height), (0, 0, 1920, 1080));
    assert_eq!(screens[1].id, "screen-1");
    assert_eq!((screens[1].x, screens[1].y, screens[1].width, screens[1].height), (1920, -100, 2560, 1440));
    assert!(get_all_screens(&vec![]).is_empty());
}

#[test]
fn the_eleventh_screen_is_screen_10() {
    let displays: Vec<Display> = (0..11).map(|i| display(i * 100, 0, 100, 100, false)).collect();
    let screens = get_all_screens(&displays);
    assert_eq!(screens[10].id, "screen-10");
    assert_eq!(screens[9].id, "screen-9");
}

#[test]
fn the_primary_display_is_the_first_that_says_so() {
    let displays = vec![display(0, 0, 800, 600, false), display(800, 0, 1920, 1080, true), display(0, 0, 1, 1, true)];
    assert_eq!(get_screen_dimensions(&displays), Some((1920, 1080)));
    assert_eq!(get_screen_dimensions(&vec![display(0, 0, 800, 600, false)]), None);
    assert_eq!(get_screen_dimensions(&vec![]), None);
    assert_eq!(get_primary_screen_dimensions(&displays), Some((800, 600)));
    assert_eq!(get_primary_screen_dimensions(&vec![]), None);
}

#[test]
fn a_display_becomes_a_screen_where_its_size_fits() {
    assert_eq!(
        display(5, 6, 1920, 1080, true).dimensions(),
        Some(ScreenDimensions { x: 5, y: 6, width: 1920, height: 1080 })
    );
    assert_eq!(display(0, 0, 3_000_000_000, 1080, true).dimensions(), None);
    assert_eq!(display(0, 0, 1080, 2_147_483_648, true).dimensions(), None);
    assert_eq!(
        display(0, 0, 2_147_483_647, 1, true).dimensions(),
        Some(ScreenDimensions { x: 0, y: 0, width: 2_147_483_647, height: 1 })
    );
}

#[test]
fn an_editor_window_is_planned_for_each_screen() {
    let displays = vec![display(0, 0, 1920, 1080, true), display(1920, 0, 2560, 1440, false)];
    let plans = create_zone_editor_windows(&displays, "Work");
    assert_eq!(plans.len(), 2);
    assert_eq!(plans[0].label, "zone-editor-0");
    assert_eq!(plans[0].title, "Zone Editor - Work");
    assert_eq!(plans[0].screen_id, "screen-0");
    assert!(plans[0].focused);
    assert_eq!((plans[0].x, plans[0].y, plans[0].width, plans[0].height), (0, 0, 1920, 1080));
    assert_eq!(plans[1].label, "zone-editor-1");
    assert_eq!(plans[1].screen_id, "screen-1");
    assert!(!plans[1].focused);
    assert_eq!((plans[1].x, plans[1].y, plans[1].width, plans[1].height), (1920, 0, 2560, 1440));
    assert!(create_zone_editor_windows(&vec![], "Work").is_empty());
}

#[test]
fn the_frontmost_window_is_the_focused_one_or_the_first() {
    let a = WindowHandle { id: 1 };
    let b = WindowHandle { id: 2 };
    assert_eq!(get_frontmost_window(true, Some(a), Some(b)), Ok(a));
    assert_eq!(get_frontmost_window(true, None, Some(b)), Ok(b));
    assert_eq!(get_frontmost_window(true, Some(a), None), Ok(a));
    assert_eq!(get_frontmost_window(true, None, None), Err(SnapError::NotFound));
    assert_eq!(get_frontmost_window(false, Some(a), Some(b)), Err(SnapError::NotFound));
}
