use crate::snapping::action::LayoutAction;
use crate::snapping::window_rect::{Frame, WindowRect};
use crate::snapping::window_state::{get_window_state, insert_window_state, WindowState, WindowStateStore, WindowStateView};
use crate::store::zone_layouts::{addressed_zone, Zone, ZoneLayout, ZoneView, FULL_EXTENT};
use vstd::prelude::*;

verus! {

/// A screen: where its top-left corner lies in the global desktop space, and
/// how large it is.
#[derive(Debug, Clone, Copy, PartialEq, Eq, Structural)]
pub struct ScreenDimensions {
    pub x: i32,
    pub y: i32,
    pub width: i32,
    pub height: i32,
}

/// Division that rounds toward zero, for a positive divisor.
pub open spec fn quotient(a: int, d: int) -> int {
    if a >= 0 {
        a / d
    } else {
        -((-a) / d)
    }
}

/// A share of an extent: `num` parts out of `den`.
#[derive(Debug, Clone, Copy, PartialEq, Eq, Structural)]
pub struct Share {
    pub num: u8,
    pub den: u8,
}

impl Share {
    /// This share of `extent`, rounded toward zero.
    pub open spec fn of(self, extent: int) -> int {
        quotient(self.num * extent, self.den as int)
    }

    /// This share of `extent`, rounded toward zero.
    fn apply(self, extent: i32) -> (part: i64)
        requires
            self.den > 0,
        ensures
            part == self.of(extent as int),
            -0x100_0000_0000 <= part <= 0x100_0000_0000,
    {
        assert(-0x100_0000_0000 <= self.num * extent <= 0x100_0000_0000) by (nonlinear_arith)
            requires
                0 <= self.num <= 255,
                -0x8000_0000 <= extent <= 0x7fff_ffff,
        ;
        let product = (self.num as i64) * (extent as i64);
        let part = product / (self.den as i64);
        assert(-0x100_0000_0000 <= quotient(product as int, self.den as int) <= 0x100_0000_0000)
            by (nonlinear_arith)
            requires
                -0x100_0000_0000 <= product <= 0x100_0000_0000,
                self.den >= 1,
        ;
        part
    }
}

/// One cell of the grid that the fixed placements are cut from: for each of
/// the four numbers of a rectangle, the share of the screen's width or height
/// that it is.
#[derive(Debug, Clone, Copy, PartialEq, Eq, Structural)]
pub struct GridCell {
    pub x: Share,
    pub y: Share,
    pub width: Share,
    pub height: Share,
}

impl GridCell {
    /// Every share has a divisor.
    pub open spec fn wf(self) -> bool {
        self.x.den > 0 && self.y.den > 0 && self.width.den > 0 && self.height.den > 0
    }

    /// The cell on `screen`, relative to the screen's own corner.
    pub open spec fn frame(self, screen: ScreenDimensions) -> Frame {
        Frame {
            x: self.x.of(screen.width as int),
            y: self.y.of(screen.height as int),
            width: self.width.of(screen.width as int),
            height: self.height.of(screen.height as int),
        }
    }

    fn of(xn: u8, xd: u8, yn: u8, yd: u8, wn: u8, wd: u8, hn: u8, hd: u8) -> (made: GridCell)
        ensures
            made == cell(xn, xd, yn, yd, wn, wd, hn, hd),
    {
        GridCell {
            x: Share { num: xn, den: xd },
            y: Share { num: yn, den: yd },
            width: Share { num: wn, den: wd },
            height: Share { num: hn, den: hd },
        }
    }
}

/// The cell whose origin is `xn/xd` of the width and `yn/yd` of the height
/// from the screen's corner, and whose size is `wn/wd` of the width by `hn/hd`
/// of the height.
pub open spec fn cell(xn: u8, xd: u8, yn: u8, yd: u8, wn: u8, wd: u8, hn: u8, hd: u8) -> GridCell {
    GridCell {
        x: Share { num: xn, den: xd },
        y: Share { num: yn, den: yd },
        width: Share { num: wn, den: wd },
        height: Share { num: hn, den: hd },
    }
}

/// The grid: the cell of each action that places a window at a fixed share of
/// the screen, and `None` for every other action.
///
/// Halves, thirds, fourths and sixths divide the screen as their names say.
/// The four corner thirds are the outer thirds at full height. Almost
/// maximizing leaves a hundredth of the screen free on each side.
pub open spec fn grid_cell(action: LayoutAction) -> Option<GridCell> {
    match action {
        LayoutAction::LeftHalf => Some(cell(0, 1, 0, 1, 1, 2, 1, 1)),
        LayoutAction::RightHalf => Some(cell(1, 2, 0, 1, 1, 2, 1, 1)),
        LayoutAction::CenterHalf => Some(cell(1, 4, 0, 1, 1, 2, 1, 1)),
        LayoutAction::TopHalf => Some(cell(0, 1, 0, 1, 1, 1, 1, 2)),
        LayoutAction::BottomHalf => Some(cell(0, 1, 1, 2, 1, 1, 1, 2)),
        LayoutAction::TopLeft => Some(cell(0, 1, 0, 1, 1, 2, 1, 2)),
        LayoutAction::TopRight => Some(cell(1, 2, 0, 1, 1, 2, 1, 2)),
        LayoutAction::BottomLeft => Some(cell(0, 1, 1, 2, 1, 2, 1, 2)),
        LayoutAction::BottomRight => Some(cell(1, 2, 1, 2, 1, 2, 1, 2)),
        LayoutAction::FirstThird => Some(cell(0, 1, 0, 1, 1, 3, 1, 1)),
        LayoutAction::CenterThird => Some(cell(1, 3, 0, 1, 1, 3, 1, 1)),
        LayoutAction::LastThird => Some(cell(2, 3, 0, 1, 1, 3, 1, 1)),
        LayoutAction::FirstTwoThirds => Some(cell(0, 1, 0, 1, 2, 3, 1, 1)),
        LayoutAction::LastTwoThirds => Some(cell(1, 3, 0, 1, 2, 3, 1, 1)),
        LayoutAction::Maximize => Some(cell(0, 1, 0, 1, 1, 1, 1, 1)),
        LayoutAction::AlmostMaximize => Some(cell(1, 100, 1, 100, 98, 100, 98, 100)),
        LayoutAction::FirstFourth => Some(cell(0, 1, 0, 1, 1, 4, 1, 1)),
        LayoutAction::SecondFourth => Some(cell(1, 4, 0, 1, 1, 4, 1, 1)),
        LayoutAction::ThirdFourth => Some(cell(2, 4, 0, 1, 1, 4, 1, 1)),
        LayoutAction::LastFourth => Some(cell(3, 4, 0, 1, 1, 4, 1, 1)),
        LayoutAction::FirstThreeFourths => Some(cell(0, 1, 0, 1, 3, 4, 1, 1)),
        LayoutAction::LastThreeFourths => Some(cell(1, 4, 0, 1, 3, 4, 1, 1)),
        LayoutAction::TopLeftSixth => Some(cell(0, 1, 0, 1, 1, 3, 1, 2)),
        LayoutAction::TopCenterSixth => Some(cell(1, 3, 0, 1, 1, 3, 1, 2)),
        LayoutAction::TopRightSixth => Some(cell(2, 3, 0, 1, 1, 3, 1, 2)),
        LayoutAction::BottomLeftSixth => Some(cell(0, 1, 1, 2, 1, 3, 1, 2)),
        LayoutAction::BottomCenterSixth => Some(cell(1, 3, 1, 2, 1, 3, 1, 2)),
        LayoutAction::BottomRightSixth => Some(cell(2, 3, 1, 2, 1, 3, 1, 2)),
        LayoutAction::TopLeftThird => Some(cell(0, 1, 0, 1, 1, 3, 1, 1)),
        LayoutAction::TopRightThird => Some(cell(2, 3, 0, 1, 1, 3, 1, 1)),
        LayoutAction::BottomLeftThird => Some(cell(0, 1, 0, 1, 1, 3, 1, 1)),
        LayoutAction::BottomRightThird => Some(cell(2, 3, 0, 1, 1, 3, 1, 1)),
        _ => None,
    }
}

/// The cell of `action` in the grid, if it has one.
pub fn grid_cell_of(action: &LayoutAction) -> (found: Option<GridCell>)
    ensures
        found == grid_cell(*action),
        found matches Some(c) ==> c.wf(),
{
    match action {
        LayoutAction::LeftHalf => Some(GridCell::of(0, 1, 0, 1, 1, 2, 1, 1)),
        LayoutAction::RightHalf => Some(GridCell::of(1, 2, 0, 1, 1, 2, 1, 1)),
        LayoutAction::CenterHalf => Some(GridCell::of(1, 4, 0, 1, 1, 2, 1, 1)),
        LayoutAction::TopHalf => Some(GridCell::of(0, 1, 0, 1, 1, 1, 1, 2)),
        LayoutAction::BottomHalf => Some(GridCell::of(0, 1, 1, 2, 1, 1, 1, 2)),
        LayoutAction::TopLeft => Some(GridCell::of(0, 1, 0, 1, 1, 2, 1, 2)),
        LayoutAction::TopRight => Some(GridCell::of(1, 2, 0, 1, 1, 2, 1, 2)),
        LayoutAction::BottomLeft => Some(GridCell::of(0, 1, 1, 2, 1, 2, 1, 2)),
        LayoutAction::BottomRight => Some(GridCell::of(1, 2, 1, 2, 1, 2, 1, 2)),
        LayoutAction::FirstThird => Some(GridCell::of(0, 1, 0, 1, 1, 3, 1, 1)),
        LayoutAction::CenterThird => Some(GridCell::of(1, 3, 0, 1, 1, 3, 1, 1)),
        LayoutAction::LastThird => Some(GridCell::of(2, 3, 0, 1, 1, 3, 1, 1)),
        LayoutAction::FirstTwoThirds => Some(GridCell::of(0, 1, 0, 1, 2, 3, 1, 1)),
        LayoutAction::LastTwoThirds => Some(GridCell::of(1, 3, 0, 1, 2, 3, 1, 1)),
        LayoutAction::Maximize => Some(GridCell::of(0, 1, 0, 1, 1, 1, 1, 1)),
        LayoutAction::AlmostMaximize => Some(GridCell::of(1, 100, 1, 100, 98, 100, 98, 100)),
        LayoutAction::FirstFourth => Some(GridCell::of(0, 1, 0, 1, 1, 4, 1, 1)),
        LayoutAction::SecondFourth => Some(GridCell::of(1, 4, 0, 1, 1, 4, 1, 1)),
        LayoutAction::ThirdFourth => Some(GridCell::of(2, 4, 0, 1, 1, 4, 1, 1)),
        LayoutAction::LastFourth => Some(GridCell::of(3, 4, 0, 1, 1, 4, 1, 1)),
        LayoutAction::FirstThreeFourths => Some(GridCell::of(0, 1, 0, 1, 3, 4, 1, 1)),
        LayoutAction::LastThreeFourths => Some(GridCell::of(1, 4, 0, 1, 3, 4, 1, 1)),
        LayoutAction::TopLeftSixth => Some(GridCell::of(0, 1, 0, 1, 1, 3, 1, 2)),
        LayoutAction::TopCenterSixth => Some(GridCell::of(1, 3, 0, 1, 1, 3, 1, 2)),
        LayoutAction::TopRightSixth => Some(GridCell::of(2, 3, 0, 1, 1, 3, 1, 2)),
        LayoutAction::BottomLeftSixth => Some(GridCell::of(0, 1, 1, 2, 1, 3, 1, 2)),
        LayoutAction::BottomCenterSixth => Some(GridCell::of(1, 3, 1, 2, 1, 3, 1, 2)),
        LayoutAction::BottomRightSixth => Some(GridCell::of(2, 3, 1, 2, 1, 3, 1, 2)),
        LayoutAction::TopLeftThird => Some(GridCell::of(0, 1, 0, 1, 1, 3, 1, 1)),
        LayoutAction::TopRightThird => Some(GridCell::of(2, 3, 0, 1, 1, 3, 1, 1)),
        LayoutAction::BottomLeftThird => Some(GridCell::of(0, 1, 0, 1, 1, 3, 1, 1)),
        LayoutAction::BottomRightThird => Some(GridCell::of(2, 3, 0, 1, 1, 3, 1, 1)),
        _ => None,
    }
}

/// The box of `zone` on `screen` in pixels, relative to the screen's own
/// corner: each percentage of the screen's width or height, rounded toward
/// zero.
pub open spec fn zone_frame(zone: ZoneView, screen: ScreenDimensions) -> Frame {
    Frame {
        x: quotient(zone.x * screen.width, FULL_EXTENT as int),
        y: quotient(zone.y * screen.height, FULL_EXTENT as int),
        width: quotient(zone.width * screen.width, FULL_EXTENT as int),
        height: quotient(zone.height * screen.height, FULL_EXTENT as int),
    }
}

/// `portion` hundred-millionths of `extent`, rounded toward zero.
fn portion_of(portion: u32, extent: i32) -> (part: i64)
    ensures
        part == quotient(portion * extent, FULL_EXTENT as int),
        -0x100_0000_0000 <= part <= 0x100_0000_0000,
{
    assert(-0x7fff_ffff_8000_0000 <= portion * extent <= 0x7fff_ffff_0000_0000) by (nonlinear_arith)
        requires
            0 <= portion <= 0xffff_ffff,
            -0x8000_0000 <= extent <= 0x7fff_ffff,
    ;
    let product = (portion as i64) * (extent as i64);
    product / 100_000_000
}

/// What an action asks for before the result is moved to the screen's corner
/// and held to the screen.
///
/// An action of the grid gives its cell of the screen. Making a window
/// smaller or larger scales `current` to eight or twelve tenths and moves its
/// corner by a tenth of its size; moving it shifts it by its own width or
/// height; centring keeps its size, or nine tenths of it. Restoring gives
/// `stored`. Applying a zone gives the first zone with that number, and
/// `current` where there is no layout or no such zone. Every other action
/// gives `current`.
pub open spec fn unclamped(
    action: LayoutAction,
    screen: ScreenDimensions,
    current: WindowRect,
    stored: WindowRect,
    zones: Option<Seq<ZoneView>>,
) -> Frame {
    let (cx, cy, cw, ch) = (current.x as int, current.y as int, current.width as int, current.height as int);
    let (sw, sh) = (screen.width as int, screen.height as int);
    match grid_cell(action) {
        Some(c) => c.frame(screen),
        None => match action {
            LayoutAction::MaximizeHeight => Frame { x: cx, y: 0, width: cw, height: sh },
            LayoutAction::Smaller => Frame {
                x: cx + quotient(cw, 10),
                y: cy + quotient(ch, 10),
                width: quotient(cw * 8, 10),
                height: quotient(ch * 8, 10),
            },
            LayoutAction::Larger => Frame {
                x: cx - quotient(cw, 10),
                y: cy - quotient(ch, 10),
                width: quotient(cw * 12, 10),
                height: quotient(ch * 12, 10),
            },
            LayoutAction::Center => Frame {
                x: quotient(sw - cw, 2),
                y: quotient(sh - ch, 2),
                width: cw,
                height: ch,
            },
            LayoutAction::CenterProminently => Frame {
                x: quotient(sw - quotient(9 * cw, 10), 2),
                y: quotient(sh - quotient(9 * ch, 10), 2),
                width: quotient(9 * cw, 10),
                height: quotient(9 * ch, 10),
            },
            LayoutAction::Restore => stored@,
            LayoutAction::MoveLeft => Frame { x: cx - cw, y: cy, width: cw, height: ch },
            LayoutAction::MoveRight => Frame { x: cx + cw, y: cy, width: cw, height: ch },
            LayoutAction::MoveUp => Frame { x: cx, y: cy - ch, width: cw, height: ch },
            LayoutAction::MoveDown => Frame { x: cx, y: cy + ch, width: cw, height: ch },
            LayoutAction::ApplyZone(number) => match zones {
                Some(zs) => match addressed_zone(zs, number) {
                    Some(zone) => zone_frame(zone, screen),
                    None => current@,
                },
                None => current@,
            },
            _ => current@,
        },
    }
}

/// `frame` moved by the screen's corner.
pub open spec fn moved_to_screen(frame: Frame, screen: ScreenDimensions) -> Frame {
    Frame { x: frame.x + screen.x, y: frame.y + screen.y, width: frame.width, height: frame.height }
}

/// `v` raised to zero where it is negative, then lowered to `limit` where it
/// is beyond it.
pub open spec fn bounded(v: int, limit: int) -> int {
    let raised = if v < 0 { 0 } else { v };
    if raised > limit {
        limit
    } else {
        raised
    }
}

/// `frame` with its corner held between zero and the screen's far edge. The
/// size is left as it is, so the far side of the frame may lie beyond the
/// screen.
pub open spec fn constrained(frame: Frame, screen: ScreenDimensions) -> Frame {
    Frame {
        x: bounded(frame.x, screen.x + screen.width),
        y: bounded(frame.y, screen.y + screen.height),
        width: frame.width,
        height: frame.height,
    }
}

/// Where `action` puts a window: what it asks for, moved by the screen's
/// corner, with the corner then held to the screen.
pub open spec fn placement(
    action: LayoutAction,
    screen: ScreenDimensions,
    current: WindowRect,
    stored: WindowRect,
    zones: Option<Seq<ZoneView>>,
) -> Frame {
    constrained(moved_to_screen(unclamped(action, screen, current, stored, zones), screen), screen)
}

/// The rectangle a window is taken to have: the one given, or the whole
/// screen from the origin where none is given.
pub open spec fn assumed_rect(screen: ScreenDimensions, current_rect: Option<WindowRect>) -> WindowRect {
    match current_rect {
        Some(rect) => rect,
        None => WindowRect { x: 0, y: 0, width: screen.width, height: screen.height },
    }
}

/// The rectangle that the history holds for `window_id`, or `current` where
/// the window has not been seen: a window's first placement remembers where
/// the window was.
pub open spec fn remembered(
    history: Map<Seq<char>, WindowStateView>,
    window_id: Seq<char>,
    current: WindowRect,
) -> WindowRect {
    if history.contains_key(window_id) {
        history[window_id].window_rect
    } else {
        current
    }
}

/// The zones that an action can address: those of the active layout, if
/// there is one.
pub open spec fn zones_in(active_layout: Option<&ZoneLayout>) -> Option<Seq<ZoneView>> {
    match active_layout {
        Some(layout) => Some(layout@.zones),
        None => None,
    }
}

/// The rectangle that [`calculate_window_rect`] gives.
pub open spec fn target(
    history: Map<Seq<char>, WindowStateView>,
    window_id: Seq<char>,
    action: LayoutAction,
    screen: ScreenDimensions,
    current_rect: Option<WindowRect>,
    zones: Option<Seq<ZoneView>>,
) -> Frame {
    let current = assumed_rect(screen, current_rect);
    placement(action, screen, current, remembered(history, window_id, current), zones)
}

/// Holds a rectangle's corner to the screen: each coordinate is raised to
/// zero and then lowered to the screen's far edge. The size is not touched.
pub fn constrain_to_screen(rect: WindowRect, screen: ScreenDimensions) -> (held: WindowRect)
    requires
        constrained(rect@, screen).fits(),
    ensures
        held@ == constrained(rect@, screen),
{
    let x = hold(rect.x as i64, screen.x as i64 + screen.width as i64);
    let y = hold(rect.y as i64, screen.y as i64 + screen.height as i64);
    WindowRect { x: x as i32, y: y as i32, width: rect.width, height: rect.height }
}

fn hold(v: i64, limit: i64) -> (held: i64)
    ensures
        held == bounded(v as int, limit as int),
{
    let raised = if v < 0 { 0 } else { v };
    if raised > limit {
        limit
    } else {
        raised
    }
}

/// The four numbers of a frame.
spec fn frame_of(parts: (i64, i64, i64, i64)) -> Frame {
    Frame { x: parts.0 as int, y: parts.1 as int, width: parts.2 as int, height: parts.3 as int }
}

spec fn modest(parts: (i64, i64, i64, i64)) -> bool {
    &&& -0x100_0000_0000 <= parts.0 <= 0x100_0000_0000
    &&& -0x100_0000_0000 <= parts.1 <= 0x100_0000_0000
    &&& -0x100_0000_0000 <= parts.2 <= 0x100_0000_0000
    &&& -0x100_0000_0000 <= parts.3 <= 0x100_0000_0000
}

fn parts_of(rect: WindowRect) -> (parts: (i64, i64, i64, i64))
    ensures
        frame_of(parts) == rect@,
        modest(parts),
{
    (rect.x as i64, rect.y as i64, rect.width as i64, rect.height as i64)
}

pub(crate) fn zone_parts(zone: &Zone, screen: ScreenDimensions) -> (parts: (i64, i64, i64, i64))
    ensures
        parts.0 == zone_frame(zone@, screen).x,
        parts.1 == zone_frame(zone@, screen).y,
        parts.2 == zone_frame(zone@, screen).width,
        parts.3 == zone_frame(zone@, screen).height,
        -0x100_0000_0000 <= parts.0 <= 0x100_0000_0000,
        -0x100_0000_0000 <= parts.1 <= 0x100_0000_0000,
        -0x100_0000_0000 <= parts.2 <= 0x100_0000_0000,
        -0x100_0000_0000 <= parts.3 <= 0x100_0000_0000,
{
    (
        portion_of(zone.x, screen.width),
        portion_of(zone.y, screen.height),
        portion_of(zone.width, screen.width),
        portion_of(zone.height, screen.height),
    )
}

fn unclamped_parts(
    action: &LayoutAction,
    screen: ScreenDimensions,
    current: WindowRect,
    stored: WindowRect,
    active_layout: Option<&ZoneLayout>,
) -> (parts: (i64, i64, i64, i64))
    ensures
        frame_of(parts) == unclamped(*action, screen, current, stored, zones_in(active_layout)),
        modest(parts),
{
    let cx = current.x as i64;
    let cy = current.y as i64;
    let cw = current.width as i64;
    let ch = current.height as i64;
    let sw = screen.width as i64;
    let sh = screen.height as i64;
    match grid_cell_of(action) {
        Some(c) => (
            c.x.apply(screen.width),
            c.y.apply(screen.height),
            c.width.apply(screen.width),
            c.height.apply(screen.height),
        ),
        None => match action {
            LayoutAction::MaximizeHeight => (cx, 0, cw, sh),
            LayoutAction::Smaller => (cx + cw / 10, cy + ch / 10, cw * 8 / 10, ch * 8 / 10),
            LayoutAction::Larger => (cx - cw / 10, cy - ch / 10, cw * 12 / 10, ch * 12 / 10),
            LayoutAction::Center => ((sw - cw) / 2, (sh - ch) / 2, cw, ch),
            LayoutAction::CenterProminently => {
                let w = 9 * cw / 10;
                let h = 9 * ch / 10;
                ((sw - w) / 2, (sh - h) / 2, w, h)
            },
            LayoutAction::Restore => parts_of(stored),
            LayoutAction::MoveLeft => (cx - cw, cy, cw, ch),
            LayoutAction::MoveRight => (cx + cw, cy, cw, ch),
            LayoutAction::MoveUp => (cx, cy - ch, cw, ch),
            LayoutAction::MoveDown => (cx, cy + ch, cw, ch),
            LayoutAction::ApplyZone(number) => match active_layout {
                Some(layout) => match layout.zone_numbered(*number) {
                    Some(zone) => zone_parts(zone, screen),
                    None => parts_of(current),
                },
                None => parts_of(current),
            },
            _ => parts_of(current),
        },
    }
}

/// The four numbers of [`target`], each in a machine integer wide enough for
/// it.
fn planned(
    store: &WindowStateStore,
    window_id: &str,
    action: &LayoutAction,
    screen: ScreenDimensions,
    current_rect: Option<WindowRect>,
    active_layout: Option<&ZoneLayout>,
) -> (parts: (i64, i64, i64, i64))
    ensures
        frame_of(parts) == target(store@, window_id@, *action, screen, current_rect, zones_in(active_layout)),
{
    let current = match current_rect {
        Some(rect) => rect,
        None => WindowRect { x: 0, y: 0, width: screen.width, height: screen.height },
    };
    let stored = match get_window_state(store, window_id) {
        Some(state) => state.window_rect,
        None => current,
    };
    let (ux, uy, uw, uh) = unclamped_parts(action, screen, current, stored, active_layout);
    let x = hold(ux + screen.x as i64, screen.x as i64 + screen.width as i64);
    let y = hold(uy + screen.y as i64, screen.y as i64 + screen.height as i64);
    (x, y, uw, uh)
}

fn representable(v: i64) -> (yes: bool)
    ensures
        yes == (i32::MIN <= v <= i32::MAX),
{
    -2147483648 <= v && v <= 2147483647
}

/// Stores the planned rectangle as the window's placement and hands it out.
fn commit(store: &mut WindowStateStore, window_id: &str, parts: (i64, i64, i64, i64)) -> (rect: WindowRect)
    requires
        frame_of(parts).fits(),
    ensures
        rect@ == frame_of(parts),
        final(store)@ == old(store)@.insert(
            window_id@,
            WindowStateView { window_rect: rect, window_id: window_id@ },
        ),
{
    let rect = WindowRect {
        x: parts.0 as i32,
        y: parts.1 as i32,
        width: parts.2 as i32,
        height: parts.3 as i32,
    };
    insert_window_state(store, window_id, WindowState::new(window_id, rect));
    rect
}

/// The rectangle that `action` asks for, for the window `window_id` on
/// `screen`.
///
/// The window is taken to be at `current_rect`, or to fill the screen where
/// none is given. A window that the history has not seen is remembered at
/// that rectangle first. The action's rectangle is then moved by the screen's
/// corner, its corner is held to the screen, and the result is stored as the
/// window's placement.
///
/// The result must be one that a [`WindowRect`] can hold;
/// [`try_calculate_window_rect`] asks for nothing and says when it is not.
pub fn calculate_window_rect(
    store: &mut WindowStateStore,
    window_id: &str,
    action: LayoutAction,
    screen: ScreenDimensions,
    current_rect: Option<WindowRect>,
    active_layout: Option<&ZoneLayout>,
) -> (result: WindowRect)
    requires
        target(old(store)@, window_id@, action, screen, current_rect, zones_in(active_layout)).fits(),
    ensures
        result@ == target(old(store)@, window_id@, action, screen, current_rect, zones_in(active_layout)),
        final(store)@ == old(store)@.insert(
            window_id@,
            WindowStateView { window_rect: result, window_id: window_id@ },
        ),
{
    let parts = planned(store, window_id, &action, screen, current_rect, active_layout);
    commit(store, window_id, parts)
}

/// The rectangle that `action` asks for, as [`calculate_window_rect`] gives
/// it, or `None` where one of its four numbers is beyond what a
/// [`WindowRect`] can hold.
///
/// Where there is a result it is stored as the window's placement. Where
/// there is none the history is left as it was.
pub fn try_calculate_window_rect(
    store: &mut WindowStateStore,
    window_id: &str,
    action: LayoutAction,
    screen: ScreenDimensions,
    current_rect: Option<WindowRect>,
    active_layout: Option<&ZoneLayout>,
) -> (result: Option<WindowRect>)
    ensures
        match result {
            Some(rect) => {
                &&& rect@ == target(old(store)@, window_id@, action, screen, current_rect, zones_in(active_layout))
                &&& final(store)@ == old(store)@.insert(
                    window_id@,
                    WindowStateView { window_rect: rect, window_id: window_id@ },
                )
            },
            None => {
                &&& !target(old(store)@, window_id@, action, screen, current_rect, zones_in(active_layout)).fits()
                &&& final(store)@ == old(store)@
            },
        },
{
    let parts = planned(store, window_id, &action, screen, current_rect, active_layout);
    if representable(parts.0) && representable(parts.1) && representable(parts.2) && representable(parts.3) {
        Some(commit(store, window_id, parts))
    } else {
        None
    }
}

} // verus!
