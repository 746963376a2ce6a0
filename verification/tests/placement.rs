use crosszones::snapping::action::LayoutAction;
use crosszones::snapping::common::{
    calculate_window_rect, constrain_to_screen, grid_cell_of, try_calculate_window_rect, ScreenDimensions,
};
use crosszones::snapping::window_rect::WindowRect;
use crosszones::snapping::window_state::{get_window_state, WindowStateStore};
use crosszones::store::zone_layouts::{Zone, ZoneLayout};

fn screen() -> ScreenDimensions {
    ScreenDimensions { x: 0, y: 0, width: 1920, height: 1080 }
}

fn rect(x: i32, y: i32, width: i32, height: i32) -> WindowRect {
    WindowRect { x, y, width, height }
}

fn place(action: LayoutAction, screen: ScreenDimensions, current: WindowRect) -> WindowRect {
    let mut store = WindowStateStore::new();
    calculate_window_rect(&mut store, "w", action, screen, Some(current), None)
}

fn zone(id: &str, x: u32, y: u32, width: u32, height: u32, number: u32) -> Zone {
    Zone { id: id.to_string(), x, y, width, height, number }
}

fn two_zones() -> ZoneLayout {
    ZoneLayout {
        id: "layout".to_string(),
        name: "Two".to_string(),
        zones: vec![
            zone("a", 0, 0, 50_000_000, 100_000_000, 1),
            zone("b", 50_000_000, 0, 50_000_000, 100_000_000, 2),
        ],
    }
}

#[test]
fn halves_divide_the_screen_by_two() {
    let c = rect(10, 20, 300, 200);
    assert_eq!(place(LayoutAction::LeftHalf, screen(), c), rect(0, 0, 960, 1080));
    assert_eq!(place(LayoutAction::RightHalf, screen(), c), rect(960, 0, 960, 1080));
    assert_eq!(place(LayoutAction::CenterHalf, screen(), c), rect(480, 0, 960, 1080));
    assert_eq!(place(LayoutAction::TopHalf, screen(), c), rect(0, 0, 1920, 540));
    assert_eq!(place(LayoutAction::BottomHalf, screen(), c), rect(0, 540, 1920, 540));
}

#[test]
fn corners_are_half_by_half() {
    let c = rect(10, 20, 300, 200);
    assert_eq!(place(LayoutAction::TopLeft, screen(), c), rect(0, 0, 960, 540));
    assert_eq!(place(LayoutAction::TopRight, screen(), c), rect(960, 0, 960, 540));
    assert_eq!(place(LayoutAction::BottomLeft, screen(), c), rect(0, 540, 960, 540));
    assert_eq!(place(LayoutAction::BottomRight, screen(), c), rect(960, 540, 960, 540));
}

#[test]
fn thirds_divide_the_width_by_three() {
    let c = rect(10, 20, 300, 200);
    assert_eq!(place(LayoutAction::FirstThird, screen(), c), rect(0, 0, 640, 1080));
    assert_eq!(place(LayoutAction::CenterThird, screen(), c), rect(640, 0, 640, 1080));
    assert_eq!(place(LayoutAction::LastThird, screen(), c), rect(1280, 0, 640, 1080));
    assert_eq!(place(LayoutAction::FirstTwoThirds, screen(), c), rect(0, 0, 1280, 1080));
    assert_eq!(place(LayoutAction::LastTwoThirds, screen(), c), rect(640, 0, 1280, 1080));
    assert_eq!(place(LayoutAction::TopLeftThird, screen(), c), rect(0, 0, 640, 1080));
    assert_eq!(place(LayoutAction::TopRightThird, screen(), c), rect(1280, 0, 640, 1080));
    assert_eq!(place(LayoutAction::BottomLeftThird, screen(), c), rect(0, 0, 640, 1080));
    assert_eq!(place(LayoutAction::BottomRightThird, screen(), c), rect(1280, 0, 640, 1080));
}

#[test]
fn thirds_round_toward_zero() {
    let s = ScreenDimensions { x: 0, y: 0, width: 1000, height: 700 };
    let c = rect(0, 0, 100, 100);
    assert_eq!(place(LayoutAction::CenterThird, s, c), rect(333, 0, 333, 700));
    assert_eq!(place(LayoutAction::LastThird, s, c), rect(666, 0, 333, 700));
    assert_eq!(place(LayoutAction::FirstTwoThirds, s, c), rect(0, 0, 666, 700));
}

#[test]
fn fourths_divide_the_width_by_four() {
    let c = rect(10, 20, 300, 200);
    assert_eq!(place(LayoutAction::FirstFourth, screen(), c), rect(0, 0, 480, 1080));
    assert_eq!(place(LayoutAction::SecondFourth, screen(), c), rect(480, 0, 480, 1080));
    assert_eq!(place(LayoutAction::ThirdFourth, screen(), c), rect(960, 0, 480, 1080));
    assert_eq!(place(LayoutAction::LastFourth, screen(), c), rect(1440, 0, 480, 1080));
    assert_eq!(place(LayoutAction::FirstThreeFourths, screen(), c), rect(0, 0, 1440, 1080));
    assert_eq!(place(LayoutAction::LastThreeFourths, screen(), c), rect(480, 0, 1440, 1080));
}

#[test]
fn sixths_are_thirds_by_halves() {
    let c = rect(10, 20, 300, 200);
    assert_eq!(place(LayoutAction::TopLeftSixth, screen(), c), rect(0, 0, 640, 540));
    assert_eq!(place(LayoutAction::TopCenterSixth, screen(), c), rect(640, 0, 640, 540));
    assert_eq!(place(LayoutAction::TopRightSixth, screen(), c), rect(1280, 0, 640, 540));
    assert_eq!(place(LayoutAction::BottomLeftSixth, screen(), c), rect(0, 540, 640, 540));
    assert_eq!(place(LayoutAction::BottomCenterSixth, screen(), c), rect(640, 540, 640, 540));
    assert_eq!(place(LayoutAction::BottomRightSixth, screen(), c), rect(1280, 540, 640, 540));
}

#[test]
fn maximize_fills_the_screen() {
    assert_eq!(place(LayoutAction::Maximize, screen(), rect(5, 5, 5, 5)), rect(0, 0, 1920, 1080));
}

#[test]
fn almost_maximize_leaves_a_hundredth_on_each_side() {
    assert_eq!(place(LayoutAction::AlmostMaximize, screen(), rect(5, 5, 5, 5)), rect(19, 10, 1881, 1058));
}

#[test]
fn maximize_height_keeps_x_and_width() {
    assert_eq!(place(LayoutAction::MaximizeHeight, screen(), rect(100, 200, 300, 400)), rect(100, 0, 300, 1080));
}

#[test]
fn smaller_shrinks_to_eight_tenths() {
    assert_eq!(place(LayoutAction::Smaller, screen(), rect(100, 200, 300, 405)), rect(130, 240, 240, 324));
}

#[test]
fn larger_grows_to_twelve_tenths() {
    assert_eq!(place(LayoutAction::Larger, screen(), rect(100, 200, 300, 405)), rect(70, 160, 360, 486));
}

#[test]
fn center_keeps_the_size() {
    assert_eq!(place(LayoutAction::Center, screen(), rect(0, 0, 300, 400)), rect(810, 340, 300, 400));
}

#[test]
fn center_prominently_scales_to_nine_tenths() {
    assert_eq!(place(LayoutAction::CenterProminently, screen(), rect(0, 0, 300, 400)), rect(825, 360, 270, 360));
}

#[test]
fn moves_shift_by_the_windows_own_size() {
    let c = rect(500, 400, 300, 200);
    assert_eq!(place(LayoutAction::MoveLeft, screen(), c), rect(200, 400, 300, 200));
    assert_eq!(place(LayoutAction::MoveRight, screen(), c), rect(800, 400, 300, 200));
    assert_eq!(place(LayoutAction::MoveUp, screen(), c), rect(500, 200, 300, 200));
    assert_eq!(place(LayoutAction::MoveDown, screen(), c), rect(500, 600, 300, 200));
}

#[test]
fn display_stubs_and_layout_activation_keep_the_rect() {
    let c = rect(500, 400, 300, 200);
    assert_eq!(place(LayoutAction::NextDisplay, screen(), c), c);
    assert_eq!(place(LayoutAction::PreviousDisplay, screen(), c), c);
    assert_eq!(place(LayoutAction::ActivateLayout("x".to_string()), screen(), c), c);
}

#[test]
fn the_corner_is_held_to_the_screen_and_the_size_is_not() {
    assert_eq!(place(LayoutAction::MoveLeft, screen(), rect(100, 50, 300, 200)), rect(0, 50, 300, 200));
    assert_eq!(place(LayoutAction::MoveUp, screen(), rect(100, 50, 300, 200)), rect(100, 0, 300, 200));
    assert_eq!(place(LayoutAction::MoveRight, screen(), rect(1800, 50, 300, 200)), rect(1920, 50, 300, 200));
    assert_eq!(place(LayoutAction::MoveDown, screen(), rect(100, 1000, 300, 200)), rect(100, 1080, 300, 200));
    assert_eq!(place(LayoutAction::Larger, screen(), rect(0, 0, 3000, 2000)), rect(0, 0, 3600, 2400));
}

#[test]
fn constrain_to_screen_bounds_only_the_corner() {
    assert_eq!(constrain_to_screen(rect(-5, 2000, 4000, 4000), screen()), rect(0, 1080, 4000, 4000));
    assert_eq!(constrain_to_screen(rect(100, 100, 10, 10), screen()), rect(100, 100, 10, 10));
    let second = ScreenDimensions { x: 1920, y: 100, width: 1920, height: 1080 };
    assert_eq!(constrain_to_screen(rect(5000, 5000, 10, 10), second), rect(3840, 1180, 10, 10));
}

#[test]
fn results_are_moved_by_the_screens_corner() {
    let second = ScreenDimensions { x: 1920, y: 100, width: 1920, height: 1080 };
    let c = rect(2000, 150, 300, 200);
    assert_eq!(place(LayoutAction::LeftHalf, second, c), rect(1920, 100, 960, 1080));
    assert_eq!(place(LayoutAction::RightHalf, second, c), rect(2880, 100, 960, 1080));
    assert_eq!(place(LayoutAction::BottomHalf, second, c), rect(1920, 640, 1920, 540));
}

#[test]
fn a_missing_rect_is_taken_as_the_whole_screen() {
    let mut store = WindowStateStore::new();
    let r = calculate_window_rect(&mut store, "w", LayoutAction::Smaller, screen(), None, None);
    assert_eq!(r, rect(192, 108, 1536, 864));
}

#[test]
fn apply_zone_converts_percentages_to_pixels() {
    let layout = two_zones();
    let mut store = WindowStateStore::new();
    let c = rect(10, 20, 300, 200);
    let first = calculate_window_rect(&mut store, "w", LayoutAction::ApplyZone(1), screen(), Some(c), Some(&layout));
    assert_eq!(first, rect(0, 0, 960, 1080));
    let second = calculate_window_rect(&mut store, "w", LayoutAction::ApplyZone(2), screen(), Some(c), Some(&layout));
    assert_eq!(second, rect(960, 0, 960, 1080));
}

#[test]
fn apply_zone_takes_the_first_zone_with_the_number() {
    let layout = ZoneLayout {
        id: "l".to_string(),
        name: "n".to_string(),
        zones: vec![
            zone("a", 0, 0, 25_000_000, 50_000_000, 7),
            zone("b", 50_000_000, 50_000_000, 25_000_000, 50_000_000, 7),
        ],
    };
    let mut store = WindowStateStore::new();
    let r = calculate_window_rect(&mut store, "w", LayoutAction::ApplyZone(7), screen(), None, Some(&layout));
    assert_eq!(r, rect(0, 0, 480, 540));
}

#[test]
fn apply_zone_rounds_toward_zero() {
    let layout = ZoneLayout {
        id: "l".to_string(),
        name: "n".to_string(),
        zones: vec![zone("a", 33_333_333, 10_000_000, 33_333_333, 12_345_678, 1)],
    };
    let mut store = WindowStateStore::new();
    let r = calculate_window_rect(&mut store, "w", LayoutAction::ApplyZone(1), screen(), None, Some(&layout));
    assert_eq!(r, rect(639, 108, 639, 133));
}

#[test]
fn apply_zone_without_a_match_keeps_the_rect() {
    let layout = two_zones();
    let c = rect(10, 20, 300, 200);
    let mut store = WindowStateStore::new();
    let r = calculate_window_rect(&mut store, "w", LayoutAction::ApplyZone(9), screen(), Some(c), Some(&layout));
    assert_eq!(r, c);
    let r = calculate_window_rect(&mut store, "w", LayoutAction::ApplyZone(1), screen(), Some(c), None);
    assert_eq!(r, c);
}

#[test]
fn the_result_is_stored_as_the_windows_placement() {
    let mut store = WindowStateStore::new();
    assert!(get_window_state(&store, "w").is_none());
    let r = calculate_window_rect(&mut store, "w", LayoutAction::LeftHalf, screen(), None, None);
    let state = get_window_state(&store, "w").unwrap();
    assert_eq!(state.window_rect, r);
    assert_eq!(state.window_id, "w");
    assert!(get_window_state(&store, "other").is_none());
}

#[test]
fn restore_gives_the_last_placement_twice() {
    let mut store = WindowStateStore::new();
    let c = rect(300, 300, 500, 400);
    let placed = calculate_window_rect(&mut store, "w", LayoutAction::RightHalf, screen(), Some(c), None);
    let first = calculate_window_rect(&mut store, "w", LayoutAction::Restore, screen(), Some(rect(1, 2, 3, 4)), None);
    let second = calculate_window_rect(&mut store, "w", LayoutAction::Restore, screen(), Some(rect(5, 6, 7, 8)), None);
    assert_eq!(first, placed);
    assert_eq!(second, placed);
}

#[test]
fn restore_of_an_unseen_window_gives_its_own_rect() {
    let mut store = WindowStateStore::new();
    let c = rect(300, 300, 500, 400);
    let first = calculate_window_rect(&mut store, "w", LayoutAction::Restore, screen(), Some(c), None);
    let second = calculate_window_rect(&mut store, "w", LayoutAction::Restore, screen(), Some(rect(0, 0, 1, 1)), None);
    assert_eq!(first, c);
    assert_eq!(second, c);
}

#[test]
fn restore_on_a_shifted_screen_moves_until_the_edge() {
    let second_screen = ScreenDimensions { x: 1920, y: 0, width: 1920, height: 1080 };
    let mut store = WindowStateStore::new();
    let c = rect(100, 10, 500, 400);
    let first = calculate_window_rect(&mut store, "w", LayoutAction::Restore, second_screen, Some(c), None);
    let second = calculate_window_rect(&mut store, "w", LayoutAction::Restore, second_screen, Some(c), None);
    assert_eq!(first, rect(2020, 10, 500, 400));
    assert_eq!(second, rect(3840, 10, 500, 400));
}

#[test]
fn histories_of_different_windows_are_apart() {
    let mut store = WindowStateStore::new();
    let a = calculate_window_rect(&mut store, "a", LayoutAction::LeftHalf, screen(), None, None);
    let b = calculate_window_rect(&mut store, "b", LayoutAction::RightHalf, screen(), None, None);
    assert_eq!(calculate_window_rect(&mut store, "a", LayoutAction::Restore, screen(), None, None), a);
    assert_eq!(calculate_window_rect(&mut store, "b", LayoutAction::Restore, screen(), None, None), b);
}

#[test]
fn a_rect_too_large_is_refused_and_not_stored() {
    let mut store = WindowStateStore::new();
    let huge = rect(0, 0, 2_000_000_000, 10);
    let r = try_calculate_window_rect(&mut store, "w", LayoutAction::Larger, screen(), Some(huge), None);
    assert_eq!(r, None);
    assert!(get_window_state(&store, "w").is_none());
    let r = try_calculate_window_rect(&mut store, "w", LayoutAction::Smaller, screen(), Some(huge), None);
    assert_eq!(r, Some(rect(1920, 1, 1_600_000_000, 8)));
}

#[test]
fn negative_sizes_round_toward_zero() {
    let s = ScreenDimensions { x: 0, y: 0, width: 1920, height: 1080 };
    assert_eq!(place(LayoutAction::Smaller, s, rect(100, 100, -15, -25)), rect(99, 98, -12, -20));
}

#[test]
fn the_grid_has_a_cell_for_fixed_placements_only() {
    let cell = grid_cell_of(&LayoutAction::LastThird).unwrap();
    assert_eq!((cell.x.num, cell.x.den), (2, 3));
    assert_eq!((cell.width.num, cell.width.den), (1, 3));
    assert_eq!((cell.height.num, cell.height.den), (1, 1));
    assert!(grid_cell_of(&LayoutAction::Smaller).is_none());
    assert!(grid_cell_of(&LayoutAction::Restore).is_none());
    assert!(grid_cell_of(&LayoutAction::ApplyZone(1)).is_none());
    assert!(grid_cell_of(&LayoutAction::Center).is_none());
}

#[test]
fn sizes_are_the_screen_divided_wherever_the_screen_lies() {
    let s = ScreenDimensions { x: -2561, y: 300, width: 2561, height: 1441 };
    let c = rect(-2000, 400, 300, 200);
    let size = |action: LayoutAction| {
        let r = place(action, s, c);
        (r.width, r.height)
    };
    assert_eq!(size(LayoutAction::LeftHalf), (1280, 1441));
    assert_eq!(size(LayoutAction::CenterHalf), (1280, 1441));
    assert_eq!(size(LayoutAction::BottomHalf), (2561, 720));
    assert_eq!(size(LayoutAction::BottomRight), (1280, 720));
    assert_eq!(size(LayoutAction::CenterThird), (853, 1441));
    assert_eq!(size(LayoutAction::LastFourth), (640, 1441));
    assert_eq!(size(LayoutAction::BottomCenterSixth), (853, 720));
    assert_eq!(size(LayoutAction::Maximize), (2561, 1441));
}
