//! What holds of every placement.

use crate::snapping::action::LayoutAction;
use crate::snapping::common::{
    assumed_rect, bounded, grid_cell, target, ScreenDimensions, Share,
};
use crate::snapping::window_rect::{Frame, WindowRect};
use crate::snapping::window_state::WindowStateView;
use crate::store::zone_layouts::{addressed_zone, ZoneView};
use vstd::prelude::*;

verus! {

/// A corner coordinate `v` is where it stays: moved by the screen's `origin`
/// and held between zero and the screen's far edge `limit`, it is `v` again.
///
/// On a screen whose corner is the desktop's origin this is every coordinate
/// on the screen. On any other screen it is only the edge that the move
/// pushes against.
pub open spec fn stays(v: int, origin: int, limit: int) -> bool {
    if limit < 0 {
        v == limit
    } else {
        0 <= v <= limit && (origin == 0 || (origin > 0 && v == limit) || (origin < 0 && v == 0))
    }
}

/// The corner of `frame` is where it stays on `screen`.
pub open spec fn corner_stays(frame: Frame, screen: ScreenDimensions) -> bool {
    &&& stays(frame.x, screen.x as int, screen.x + screen.width)
    &&& stays(frame.y, screen.y as int, screen.y + screen.height)
}

/// `stays` says what its name promises.
pub proof fn stays_means_unmoved(v: int, origin: int, limit: int)
    ensures
        stays(v, origin, limit) <==> bounded(v + origin, limit) == v,
{
}

/// The history after `frame` was stored as the placement of `window_id`.
pub open spec fn recorded(
    history: Map<Seq<char>, WindowStateView>,
    window_id: Seq<char>,
    frame: Frame,
) -> Map<Seq<char>, WindowStateView> {
    history.insert(window_id, WindowStateView { window_rect: frame.rect(), window_id })
}

/// An action of the grid gives the window the share of the screen's width
/// and of its height that the grid names for it, on every screen and
/// whatever the window's rectangle was.
pub proof fn grid_action_takes_its_share(
    history: Map<Seq<char>, WindowStateView>,
    window_id: Seq<char>,
    action: LayoutAction,
    screen: ScreenDimensions,
    current_rect: Option<WindowRect>,
    zones: Option<Seq<ZoneView>>,
)
    requires
        grid_cell(action) is Some,
    ensures
        ({
            let placed = target(history, window_id, action, screen, current_rect, zones);
            let c = grid_cell(action).unwrap();
            &&& placed.width == c.width.of(screen.width as int)
            &&& placed.height == c.height.of(screen.height as int)
        }),
{
}

/// On a screen whose corner is the desktop's origin and whose size is not
/// negative, an action of the grid puts the window's corner at the share of
/// the screen's width and height that the grid names for it.
pub proof fn grid_action_starts_at_its_share(
    history: Map<Seq<char>, WindowStateView>,
    window_id: Seq<char>,
    action: LayoutAction,
    screen: ScreenDimensions,
    current_rect: Option<WindowRect>,
    zones: Option<Seq<ZoneView>>,
)
    requires
        grid_cell(action) is Some,
        screen.x == 0,
        screen.y == 0,
        screen.width >= 0,
        screen.height >= 0,
    ensures
        ({
            let placed = target(history, window_id, action, screen, current_rect, zones);
            let c = grid_cell(action).unwrap();
            &&& placed.x == c.x.of(screen.width as int)
            &&& placed.y == c.y.of(screen.height as int)
        }),
{
    let c = grid_cell(action).unwrap();
    share_lies_within(c.x, screen.width as int);
    share_lies_within(c.y, screen.height as int);
}

/// By how much the screen's width and height are divided for an action that
/// gives a window one part of each: two for a half, three for a third, four
/// for a fourth, and one where the whole is taken.
pub open spec fn size_divisors(action: LayoutAction) -> Option<(int, int)> {
    match action {
        LayoutAction::LeftHalf | LayoutAction::RightHalf | LayoutAction::CenterHalf => Some((2, 1)),
        LayoutAction::TopHalf | LayoutAction::BottomHalf => Some((1, 2)),
        LayoutAction::TopLeft
        | LayoutAction::TopRight
        | LayoutAction::BottomLeft
        | LayoutAction::BottomRight => Some((2, 2)),
        LayoutAction::FirstThird
        | LayoutAction::CenterThird
        | LayoutAction::LastThird
        | LayoutAction::TopLeftThird
        | LayoutAction::TopRightThird
        | LayoutAction::BottomLeftThird
        | LayoutAction::BottomRightThird => Some((3, 1)),
        LayoutAction::FirstFourth
        | LayoutAction::SecondFourth
        | LayoutAction::ThirdFourth
        | LayoutAction::LastFourth => Some((4, 1)),
        LayoutAction::TopLeftSixth
        | LayoutAction::TopCenterSixth
        | LayoutAction::TopRightSixth
        | LayoutAction::BottomLeftSixth
        | LayoutAction::BottomCenterSixth
        | LayoutAction::BottomRightSixth => Some((3, 2)),
        LayoutAction::Maximize => Some((1, 1)),
        _ => None,
    }
}

/// An action that gives a window one part of the screen gives it the
/// screen's width and height divided by the action's divisors, on every
/// screen whose size is not negative, wherever the screen lies and whatever
/// the window's rectangle and history were.
pub proof fn grid_action_divides_the_screen(
    history: Map<Seq<char>, WindowStateView>,
    window_id: Seq<char>,
    action: LayoutAction,
    screen: ScreenDimensions,
    current_rect: Option<WindowRect>,
    zones: Option<Seq<ZoneView>>,
)
    requires
        size_divisors(action) is Some,
        screen.width >= 0,
        screen.height >= 0,
    ensures
        ({
            let placed = target(history, window_id, action, screen, current_rect, zones);
            let (a, b) = size_divisors(action).unwrap();
            &&& placed.width == (screen.width as int) / a
            &&& placed.height == (screen.height as int) / b
        }),
{
    let c = grid_cell(action).unwrap();
    let (a, b) = size_divisors(action).unwrap();
    let (sw, sh) = (screen.width as int, screen.height as int);
    assert(c.width.num == 1 && c.width.den == a && c.height.num == 1 && c.height.den == b);
    assert(c.width.num * sw == sw && c.height.num * sh == sh) by (nonlinear_arith)
        requires
            c.width.num == 1,
            c.height.num == 1,
    ;
}

/// On a screen whose size is not negative and whose far edges a
/// [`WindowRect`] can hold, the rectangle of every action of the grid is one
/// that a [`WindowRect`] can hold: the calculation is owed there.
pub proof fn grid_action_fits_the_screen(
    history: Map<Seq<char>, WindowStateView>,
    window_id: Seq<char>,
    action: LayoutAction,
    screen: ScreenDimensions,
    current_rect: Option<WindowRect>,
    zones: Option<Seq<ZoneView>>,
)
    requires
        grid_cell(action) is Some,
        screen.width >= 0,
        screen.height >= 0,
        screen.x + screen.width <= i32::MAX,
        screen.y + screen.height <= i32::MAX,
    ensures
        target(history, window_id, action, screen, current_rect, zones).fits(),
{
    let c = grid_cell(action).unwrap();
    share_lies_within(c.width, screen.width as int);
    share_lies_within(c.height, screen.height as int);
}

/// A share that is no more than the whole, of an extent that is not
/// negative, lies between zero and the extent.
proof fn share_lies_within(share: Share, extent: int)
    requires
        0 < share.den,
        share.num <= share.den,
        0 <= extent,
    ensures
        0 <= share.of(extent) <= extent,
{
    let (n, d) = (share.num as int, share.den as int);
    assert(0 <= n * extent <= d * extent) by (nonlinear_arith)
        requires
            0 <= n <= d,
            0 <= extent,
    ;
    assert(0 <= (n * extent) / d <= extent) by (nonlinear_arith)
        requires
            0 <= n * extent <= d * extent,
            0 < d,
    ;
}

/// Restoring a window twice in a row gives the same rectangle both times
/// exactly when the first result's corner is where it stays on the screen.
pub proof fn restore_repeats(
    history: Map<Seq<char>, WindowStateView>,
    window_id: Seq<char>,
    screen: ScreenDimensions,
    first_rect: Option<WindowRect>,
    first_zones: Option<Seq<ZoneView>>,
    second_rect: Option<WindowRect>,
    second_zones: Option<Seq<ZoneView>>,
)
    requires
        target(history, window_id, LayoutAction::Restore, screen, first_rect, first_zones).fits(),
    ensures
        ({
            let first = target(history, window_id, LayoutAction::Restore, screen, first_rect, first_zones);
            let second = target(
                recorded(history, window_id, first),
                window_id,
                LayoutAction::Restore,
                screen,
                second_rect,
                second_zones,
            );
            second == first <==> corner_stays(first, screen)
        }),
{
}

/// After any action, restoring the window twice in a row gives the action's
/// rectangle both times, exactly when that rectangle's corner is where it
/// stays on the screen.
pub proof fn restore_keeps_placement(
    history: Map<Seq<char>, WindowStateView>,
    window_id: Seq<char>,
    action: LayoutAction,
    screen: ScreenDimensions,
    current_rect: Option<WindowRect>,
    zones: Option<Seq<ZoneView>>,
    first_rect: Option<WindowRect>,
    first_zones: Option<Seq<ZoneView>>,
    second_rect: Option<WindowRect>,
    second_zones: Option<Seq<ZoneView>>,
)
    requires
        target(history, window_id, action, screen, current_rect, zones).fits(),
    ensures
        ({
            let placed = target(history, window_id, action, screen, current_rect, zones);
            let after = recorded(history, window_id, placed);
            let first = target(after, window_id, LayoutAction::Restore, screen, first_rect, first_zones);
            let second = target(
                recorded(after, window_id, first),
                window_id,
                LayoutAction::Restore,
                screen,
                second_rect,
                second_zones,
            );
            (first == placed && second == placed) <==> corner_stays(placed, screen)
        }),
{
}

/// Applying a zone number that addresses no zone, or applying one without an
/// active layout, leaves the window's rectangle as it is, exactly when the
/// rectangle's corner is where it stays on the screen.
pub proof fn unknown_zone_keeps_rect(
    history: Map<Seq<char>, WindowStateView>,
    window_id: Seq<char>,
    number: u32,
    screen: ScreenDimensions,
    current_rect: Option<WindowRect>,
    zones: Option<Seq<ZoneView>>,
)
    requires
        zones matches Some(zs) ==> addressed_zone(zs, number) is None,
    ensures
        ({
            let current = assumed_rect(screen, current_rect);
            let placed = target(history, window_id, LayoutAction::ApplyZone(number), screen, current_rect, zones);
            placed == current@ <==> corner_stays(current@, screen)
        }),
{
}

} // verus!
