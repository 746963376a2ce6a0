use vstd::prelude::*;

verus! {

/// A rectangle over the mathematical integers: what a [`WindowRect`] stands
/// for, and what a placement is before it is known to fit the machine type.
pub struct Frame {
    pub x: int,
    pub y: int,
    pub width: int,
    pub height: int,
}

impl Frame {
    /// All four numbers can be held by a [`WindowRect`].
    pub open spec fn fits(self) -> bool {
        &&& i32::MIN <= self.x <= i32::MAX
        &&& i32::MIN <= self.y <= i32::MAX
        &&& i32::MIN <= self.width <= i32::MAX
        &&& i32::MIN <= self.height <= i32::MAX
    }

    /// The [`WindowRect`] with these four numbers, where they fit.
    pub open spec fn rect(self) -> WindowRect {
        WindowRect { x: self.x as i32, y: self.y as i32, width: self.width as i32, height: self.height as i32 }
    }
}

/// A window's position and size, in pixels of the global desktop space.
#[derive(Debug, Clone, Copy, PartialEq, Eq, Structural)]
pub struct WindowRect {
    pub x: i32,
    pub y: i32,
    pub width: i32,
    pub height: i32,
}

impl View for WindowRect {
    type V = Frame;

    open spec fn view(&self) -> Frame {
        Frame { x: self.x as int, y: self.y as int, width: self.width as int, height: self.height as int }
    }
}

impl WindowRect {
    /// The rectangle with the given origin and size.
    pub fn new(x: i32, y: i32, width: i32, height: i32) -> (rect: WindowRect)
        ensures
            rect == (WindowRect { x, y, width, height }),
    {
        WindowRect { x, y, width, height }
    }
}

/// Two rectangles with the same view are the same rectangle.
pub proof fn window_rect_view_injective(a: WindowRect, b: WindowRect)
    requires
        a@ == b@,
    ensures
        a == b,
{
}

} // verus!
