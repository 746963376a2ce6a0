use crate::snapping::common::ScreenDimensions;
use crate::snapping::window_rect::{Frame, WindowRect};
use vstd::prelude::*;

verus! {

/// The area a screen covers, as a frame.
pub open spec fn screen_frame(screen: ScreenDimensions) -> Frame {
    Frame { x: screen.x as int, y: screen.y as int, width: screen.width as int, height: screen.height as int }
}

/// How far two stretches of a line overlap: from the later start to the
/// earlier end. Not positive where they do not overlap.
pub open spec fn stretch_overlap(a_start: int, a_length: int, b_start: int, b_length: int) -> int {
    let start = if a_start >= b_start { a_start } else { b_start };
    let end = if a_start + a_length <= b_start + b_length { a_start + a_length } else { b_start + b_length };
    end - start
}

/// The two frames have points in common.
pub open spec fn frames_meet(a: Frame, b: Frame) -> bool {
    &&& stretch_overlap(a.x, a.width, b.x, b.width) > 0
    &&& stretch_overlap(a.y, a.height, b.y, b.height) > 0
}

/// What two frames have in common, where they meet.
pub open spec fn intersection(a: Frame, b: Frame) -> Frame {
    Frame {
        x: if a.x >= b.x { a.x } else { b.x },
        y: if a.y >= b.y { a.y } else { b.y },
        width: stretch_overlap(a.x, a.width, b.x, b.width),
        height: stretch_overlap(a.y, a.height, b.y, b.height),
    }
}

/// The area that two frames have in common: zero where they do not meet.
pub open spec fn shared_area(a: Frame, b: Frame) -> int {
    if frames_meet(a, b) {
        intersection(a, b).width * intersection(a, b).height
    } else {
        0
    }
}

/// The screen at `i` shares the most area with `rect`, and is the first that
/// does.
///
/// The share of `rect` that a screen covers is this area divided by the area
/// of `rect`, the same divisor for every screen: the largest share is the
/// largest area.
pub open spec fn is_best_screen(rect: Frame, screens: Seq<ScreenDimensions>, i: int) -> bool {
    &&& 0 <= i < screens.len()
    &&& forall|j: int|
        0 <= j < screens.len() ==> shared_area(rect, screen_frame(#[trigger] screens[j])) <= shared_area(
            rect,
            screen_frame(screens[i]),
        )
    &&& forall|j: int|
        0 <= j < i ==> shared_area(rect, screen_frame(#[trigger] screens[j])) < shared_area(
            rect,
            screen_frame(screens[i]),
        )
}

/// The rectangle that `rect` and `screen` have in common, or `None` where
/// they have no point in common.
pub fn rect_intersection(rect: WindowRect, screen: ScreenDimensions) -> (common: Option<WindowRect>)
    ensures
        match common {
            Some(c) => frames_meet(rect@, screen_frame(screen)) && c@ == intersection(
                rect@,
                screen_frame(screen),
            ),
            None => !frames_meet(rect@, screen_frame(screen)),
        },
{
    let left = if rect.x >= screen.x { rect.x } else { screen.x };
    let top = if rect.y >= screen.y { rect.y } else { screen.y };
    let rect_right = rect.x as i64 + rect.width as i64;
    let screen_right = screen.x as i64 + screen.width as i64;
    let rect_bottom = rect.y as i64 + rect.height as i64;
    let screen_bottom = screen.y as i64 + screen.height as i64;
    let right = if rect_right <= screen_right { rect_right } else { screen_right };
    let bottom = if rect_bottom <= screen_bottom { rect_bottom } else { screen_bottom };
    let width = right - left as i64;
    let height = bottom - top as i64;
    if width > 0 && height > 0 {
        Some(WindowRect { x: left, y: top, width: width as i32, height: height as i32 })
    } else {
        None
    }
}

/// The area of `rect` that lies on `screen`.
pub fn rect_contained_area(rect: WindowRect, screen: ScreenDimensions) -> (area: u64)
    ensures
        area == shared_area(rect@, screen_frame(screen)),
{
    match rect_intersection(rect, screen) {
        Some(common) => {
            assert(0 < common.width * common.height <= 0x7fff_ffff * 0x7fff_ffff) by (nonlinear_arith)
                requires
                    0 < common.width <= 0x7fff_ffff,
                    0 < common.height <= 0x7fff_ffff,
            ;
            (common.width as u64) * (common.height as u64)
        },
        None => 0,
    }
}

/// Which of `screens` the rectangle is on: the screen that covers the
/// largest share of it, the first of them where several cover the same, and
/// so the first screen of all where none covers any of it. `None` where there
/// is no screen.
pub fn screen_with_rect(rect: WindowRect, screens: &Vec<ScreenDimensions>) -> (best: Option<usize>)
    ensures
        match best {
            Some(i) => is_best_screen(rect@, screens@, i as int),
            None => screens.len() == 0,
        },
{
    if screens.len() == 0 {
        return None;
    }
    let mut best: usize = 0;
    let mut highest: u64 = rect_contained_area(rect, screens[0]);
    let mut i: usize = 1;
    while i < screens.len()
        invariant
            1 <= i <= screens.len(),
            best < i,
            highest == shared_area(rect@, screen_frame(screens[best as int])),
            forall|j: int|
                0 <= j < i ==> shared_area(rect@, screen_frame(#[trigger] screens[j])) <= highest,
            forall|j: int|
                0 <= j < best ==> shared_area(rect@, screen_frame(#[trigger] screens[j])) < highest,
        decreases screens.len() - i,
    {
        let area = rect_contained_area(rect, screens[i]);
        if area > highest {
            highest = area;
            best = i;
        }
        i += 1;
    }
    Some(best)
}

/// The screen that `rect` is on, as [`screen_with_rect`] picks it.
pub fn best_screen_for_rect(rect: WindowRect, screens: &Vec<ScreenDimensions>) -> (best: Option<
    ScreenDimensions,
>)
    ensures
        match best {
            Some(screen) => exists|i: int| is_best_screen(rect@, screens@, i) && screens[i] == screen,
            None => screens.len() == 0,
        },
{
    match screen_with_rect(rect, screens) {
        Some(i) => Some(screens[i]),
        None => None,
    }
}

/// At most one screen is the best for a rectangle.
pub proof fn best_screen_is_unique(rect: Frame, screens: Seq<ScreenDimensions>, i: int, j: int)
    requires
        is_best_screen(rect, screens, i),
        is_best_screen(rect, screens, j),
    ensures
        i == j,
{
    let at_i = shared_area(rect, screen_frame(screens[i]));
    let at_j = shared_area(rect, screen_frame(screens[j]));
    assert(at_i <= at_j && at_j <= at_i);
}

/// One screen alone is the best for every rectangle.
pub proof fn single_screen_is_best(rect: Frame, screens: Seq<ScreenDimensions>)
    requires
        screens.len() == 1,
    ensures
        is_best_screen(rect, screens, 0),
{
}

/// Two screens of 1920 by 1080 side by side, the first at the desktop's
/// origin.
pub open spec fn side_by_side() -> Seq<ScreenDimensions> {
    seq![
        ScreenDimensions { x: 0, y: 0, width: 1920, height: 1080 },
        ScreenDimensions { x: 1920, y: 0, width: 1920, height: 1080 },
    ]
}

/// Of two screens side by side, a rectangle that lies between the left and
/// right edges of the left screen is on the left screen.
pub proof fn left_screen_holds_its_rects(rect: WindowRect)
    requires
        0 <= rect.x,
        rect.x + rect.width <= 1920,
    ensures
        is_best_screen(rect@, side_by_side(), 0),
{
    let right = screen_frame(side_by_side()[1]);
    assert(!frames_meet(rect@, right));
    assert(shared_area(rect@, screen_frame(side_by_side()[0])) >= 0) by {
        let left = screen_frame(side_by_side()[0]);
        if frames_meet(rect@, left) {
            let c = intersection(rect@, left);
            assert(c.width * c.height >= 0) by (nonlinear_arith)
                requires
                    c.width > 0,
                    c.height > 0,
            ;
        }
    }
}

/// Of two screens side by side, a rectangle that lies between the left and
/// right edges of the right screen is on the right screen exactly when some
/// of it lies on that screen: when it is not empty and reaches into the
/// screen's height.
pub proof fn right_screen_holds_its_rects(rect: WindowRect)
    requires
        1920 <= rect.x,
        rect.x + rect.width <= 3840,
    ensures
        is_best_screen(rect@, side_by_side(), 1) <==> (rect.width > 0 && rect.height > 0 && rect.y < 1080
            && rect.y + rect.height > 0),
{
    let left = screen_frame(side_by_side()[0]);
    let right = screen_frame(side_by_side()[1]);
    assert(!frames_meet(rect@, left));
    assert(shared_area(rect@, left) == 0);
    if rect.width > 0 && rect.height > 0 && rect.y < 1080 && rect.y + rect.height > 0 {
        assert(frames_meet(rect@, right));
        let c = intersection(rect@, right);
        assert(c.width * c.height > 0) by (nonlinear_arith)
            requires
                c.width > 0,
                c.height > 0,
        ;
        assert(is_best_screen(rect@, side_by_side(), 1));
    } else {
        assert(!frames_meet(rect@, right));
        assert(shared_area(rect@, right) == 0);
        assert(!is_best_screen(rect@, side_by_side(), 1));
    }
}

} // verus!
