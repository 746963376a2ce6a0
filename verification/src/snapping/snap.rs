use crate::snapping::action::LayoutAction;
use crate::snapping::common::{target, try_calculate_window_rect, zones_in, ScreenDimensions};
use crate::snapping::window_rect::{window_rect_view_injective, Frame, WindowRect};
use crate::snapping::window_state::{WindowStateStore, WindowStateView};
use crate::store::zone_layouts::{zone_under, ZoneLayout, ZoneView};
use vstd::prelude::*;

verus! {

/// Why a window was not snapped.
#[derive(Debug, Clone, Copy, PartialEq, Eq, Structural)]
pub enum SnapError {
    /// There is no frontmost window, or no active layout.
    NotFound,
    /// The platform could not read or set a window's geometry.
    PlatformError,
    /// The settings or the layout hold numbers that give no rectangle.
    ConfigurationError,
}

impl SnapError {
    /// The error in words.
    pub fn message(&self) -> (text: &'static str)
        ensures
            text@ == match *self {
                SnapError::NotFound => "No window or no active zone layout"@,
                SnapError::PlatformError => "Failed to read or set the window's geometry"@,
                SnapError::ConfigurationError => "The layout gives no rectangle on this screen"@,
            },
    {
        match self {
            SnapError::NotFound => "No window or no active zone layout",
            SnapError::PlatformError => "Failed to read or set the window's geometry",
            SnapError::ConfigurationError => "The layout gives no rectangle on this screen",
        }
    }
}

/// The history after `rect` was stored as the placement of `window_id`.
pub open spec fn stored_at(
    history: Map<Seq<char>, WindowStateView>,
    window_id: Seq<char>,
    rect: WindowRect,
) -> Map<Seq<char>, WindowStateView> {
    history.insert(window_id, WindowStateView { window_rect: rect, window_id })
}

/// The rectangle that the window `window_id`, now at `current_rect` on
/// `screen`, is to be given for `action`. The caller sets it.
///
/// Fails with [`SnapError::ConfigurationError`], and leaves the history as it
/// was, exactly where the action's rectangle is beyond what a [`WindowRect`]
/// can hold.
pub fn snap_window(
    store: &mut WindowStateStore,
    window_id: &str,
    action: LayoutAction,
    screen: ScreenDimensions,
    current_rect: WindowRect,
    active_layout: Option<&ZoneLayout>,
) -> (result: Result<WindowRect, SnapError>)
    ensures
        ({
            let aim = target(old(store)@, window_id@, action, screen, Some(current_rect), zones_in(active_layout));
            match result {
                Ok(rect) => rect@ == aim && final(store)@ == stored_at(old(store)@, window_id@, rect),
                Err(e) => e == SnapError::ConfigurationError && !aim.fits() && final(store)@ == old(store)@,
            }
        }),
{
    match try_calculate_window_rect(store, window_id, action, screen, Some(current_rect), active_layout) {
        Some(rect) => Ok(rect),
        None => Err(SnapError::ConfigurationError),
    }
}

/// What letting go of a window at the point `(x, y)` gives.
///
/// Without an active layout it is [`SnapError::NotFound`]. Where no zone of
/// the layout lies under the point, nothing happens. Otherwise the number of
/// the zone under the point is applied to the window as
/// [`LayoutAction::ApplyZone`] applies it.
pub open spec fn drop_outcome(
    history: Map<Seq<char>, WindowStateView>,
    window_id: Seq<char>,
    active_layout: Option<&ZoneLayout>,
    screen: ScreenDimensions,
    current_rect: WindowRect,
    x: int,
    y: int,
) -> Result<Option<Frame>, SnapError> {
    match active_layout {
        None => Err(SnapError::NotFound),
        Some(layout) => match zone_under(layout@.zones, screen, x, y) {
            None => Ok(None),
            Some(zone) => {
                let aim = target(
                    history,
                    window_id,
                    LayoutAction::ApplyZone(zone.number),
                    screen,
                    Some(current_rect),
                    zones_in(active_layout),
                );
                if aim.fits() {
                    Ok(Some(aim))
                } else {
                    Err(SnapError::ConfigurationError)
                }
            },
        },
    }
}

/// Lets go of the window `window_id` at the point `(x, y)`: gives the
/// rectangle of the zone to snap it to, for the caller to set, or `None` where
/// the point is in no zone.
///
/// The history takes the new placement where there is one, and is left as it
/// was otherwise.
pub fn handle_drop(
    store: &mut WindowStateStore,
    window_id: &str,
    active_layout: Option<&ZoneLayout>,
    screen: ScreenDimensions,
    current_rect: WindowRect,
    x: i32,
    y: i32,
) -> (result: Result<Option<WindowRect>, SnapError>)
    ensures
        ({
            let outcome = drop_outcome(
                old(store)@,
                window_id@,
                active_layout,
                screen,
                current_rect,
                x as int,
                y as int,
            );
            match result {
                Ok(Some(rect)) => outcome == Ok::<Option<Frame>, SnapError>(Some(rect@)) && final(store)@
                    == stored_at(old(store)@, window_id@, rect),
                Ok(None) => outcome == Ok::<Option<Frame>, SnapError>(None) && final(store)@ == old(
                    store,
                )@,
                Err(e) => outcome == Err::<Option<Frame>, SnapError>(e) && final(store)@ == old(store)@,
            }
        }),
{
    let layout = match active_layout {
        Some(layout) => layout,
        None => {
            return Err(SnapError::NotFound);
        },
    };
    match layout.get_zone_at_position(x, y, screen) {
        None => Ok(None),
        Some(zone) => {
            let action = LayoutAction::ApplyZone(zone.number);
            match snap_window(store, window_id, action, screen, current_rect, active_layout) {
                Ok(rect) => Ok(Some(rect)),
                Err(e) => Err(e),
            }
        },
    }
}

/// How far a window's visible frame lies inside the rectangle that the
/// platform reports for it: the frame starts `x` and `y` further in, and is
/// `width` and `height` smaller.
#[derive(Debug, Clone, Copy, PartialEq, Eq, Structural)]
pub struct FrameInsets {
    pub x: i32,
    pub y: i32,
    pub width: i32,
    pub height: i32,
}

/// The visible frame of a window whose reported rectangle is `outer`.
pub open spec fn visible_frame(outer: Frame, insets: FrameInsets) -> Frame {
    Frame {
        x: outer.x + insets.x,
        y: outer.y + insets.y,
        width: outer.width - insets.width,
        height: outer.height - insets.height,
    }
}

/// The rectangle to report for a window whose visible frame is to be `inner`.
pub open spec fn reported_frame(inner: Frame, insets: FrameInsets) -> Frame {
    Frame {
        x: inner.x - insets.x,
        y: inner.y - insets.y,
        width: inner.width + insets.width,
        height: inner.height + insets.height,
    }
}

fn rect_from(x: i64, y: i64, width: i64, height: i64) -> (rect: Option<WindowRect>)
    ensures
        match rect {
            Some(r) => r@ == (Frame { x: x as int, y: y as int, width: width as int, height: height as int }),
            None => !(Frame { x: x as int, y: y as int, width: width as int, height: height as int }).fits(),
        },
{
    if -2147483648 <= x && x <= 2147483647 && -2147483648 <= y && y <= 2147483647 && -2147483648 <= width
        && width <= 2147483647 && -2147483648 <= height && height <= 2147483647 {
        Some(WindowRect { x: x as i32, y: y as i32, width: width as i32, height: height as i32 })
    } else {
        None
    }
}

/// The visible frame of a window whose reported rectangle is `outer`, or
/// `None` where a [`WindowRect`] cannot hold it.
pub fn without_borders(outer: WindowRect, insets: FrameInsets) -> (inner: Option<WindowRect>)
    ensures
        match inner {
            Some(r) => r@ == visible_frame(outer@, insets),
            None => !visible_frame(outer@, insets).fits(),
        },
{
    rect_from(
        outer.x as i64 + insets.x as i64,
        outer.y as i64 + insets.y as i64,
        outer.width as i64 - insets.width as i64,
        outer.height as i64 - insets.height as i64,
    )
}

/// The rectangle to report for a window whose visible frame is to be `inner`,
/// or `None` where a [`WindowRect`] cannot hold it.
pub fn with_borders(inner: WindowRect, insets: FrameInsets) -> (outer: Option<WindowRect>)
    ensures
        match outer {
            Some(r) => r@ == reported_frame(inner@, insets),
            None => !reported_frame(inner@, insets).fits(),
        },
{
    rect_from(
        inner.x as i64 - insets.x as i64,
        inner.y as i64 - insets.y as i64,
        inner.width as i64 + insets.width as i64,
        inner.height as i64 + insets.height as i64,
    )
}

/// What snapping a window with borders gives: the rectangle to report for
/// it, so that its visible frame is where the action puts it.
///
/// The borders are taken off what the platform reported, the action is
/// applied to the visible frame, and the borders are put on again. It is a
/// [`SnapError::PlatformError`] where what was reported has no visible frame
/// that a [`WindowRect`] can hold, and a [`SnapError::ConfigurationError`]
/// where the action's rectangle, or that rectangle with the borders on, is
/// beyond one.
pub open spec fn framed_outcome(
    history: Map<Seq<char>, WindowStateView>,
    window_id: Seq<char>,
    action: LayoutAction,
    screen: ScreenDimensions,
    reported: WindowRect,
    insets: FrameInsets,
    zones: Option<Seq<ZoneView>>,
) -> Result<Frame, SnapError> {
    let visible = visible_frame(reported@, insets);
    if !visible.fits() {
        Err(SnapError::PlatformError)
    } else {
        let aim = target(history, window_id, action, screen, Some(visible.rect()), zones);
        if !aim.fits() || !reported_frame(aim, insets).fits() {
            Err(SnapError::ConfigurationError)
        } else {
            Ok(reported_frame(aim, insets))
        }
    }
}

/// The rectangle to set for the window `window_id`, which the platform
/// reports at `reported` with borders of `insets` around its visible frame,
/// so that the visible frame is where `action` puts it.
///
/// The history takes the visible frame's new placement where the action's
/// rectangle can be held, also where putting the borders on then fails.
pub fn snap_framed_window(
    store: &mut WindowStateStore,
    window_id: &str,
    action: LayoutAction,
    screen: ScreenDimensions,
    reported: WindowRect,
    insets: FrameInsets,
    active_layout: Option<&ZoneLayout>,
) -> (result: Result<WindowRect, SnapError>)
    ensures
        ({
            let outcome = framed_outcome(
                old(store)@,
                window_id@,
                action,
                screen,
                reported,
                insets,
                zones_in(active_layout),
            );
            match result {
                Ok(rect) => outcome == Ok::<Frame, SnapError>(rect@),
                Err(e) => outcome == Err::<Frame, SnapError>(e),
            }
        }),
        ({
            let visible = visible_frame(reported@, insets);
            let aim = target(
                old(store)@,
                window_id@,
                action,
                screen,
                Some(visible.rect()),
                zones_in(active_layout),
            );
            final(store)@ == if visible.fits() && aim.fits() {
                stored_at(old(store)@, window_id@, aim.rect())
            } else {
                old(store)@
            }
        }),
{
    let current = match without_borders(reported, insets) {
        Some(current) => current,
        None => {
            return Err(SnapError::PlatformError);
        },
    };
    proof {
        window_rect_view_injective(current, visible_frame(reported@, insets).rect());
    }
    let placed = match snap_window(store, window_id, action, screen, current, active_layout) {
        Ok(placed) => placed,
        Err(e) => {
            return Err(e);
        },
    };
    proof {
        window_rect_view_injective(placed, placed@.rect());
    }
    match with_borders(placed, insets) {
        Some(outer) => Ok(outer),
        None => Err(SnapError::ConfigurationError),
    }
}

/// Taking the borders off a rectangle and putting them on again gives the
/// rectangle, and the other way round.
pub proof fn borders_cancel(frame: Frame, insets: FrameInsets)
    ensures
        reported_frame(visible_frame(frame, insets), insets) == frame,
        visible_frame(reported_frame(frame, insets), insets) == frame,
{
}

} // verus!
