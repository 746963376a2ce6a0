use crate::drag_drop::session::WindowHandle;
use crate::snapping::snap::SnapError;
use vstd::prelude::*;

verus! {

/// The window that input goes to: the focused window of the frontmost
/// application, or the application's first window where none is focused.
/// There is none without a frontmost application, and none where the
/// application has no window.
pub open spec fn front_window(
    application_found: bool,
    focused: Option<WindowHandle>,
    first: Option<WindowHandle>,
) -> Result<WindowHandle, SnapError> {
    if !application_found {
        Err(SnapError::NotFound)
    } else {
        match focused {
            Some(window) => Ok(window),
            None => match first {
                Some(window) => Ok(window),
                None => Err(SnapError::NotFound),
            },
        }
    }
}

/// Picks the frontmost window from what the platform reports: whether there
/// is a frontmost application, its focused window, and the first of its
/// windows.
pub fn get_frontmost_window(
    application_found: bool,
    focused: Option<WindowHandle>,
    first: Option<WindowHandle>,
) -> (window: Result<WindowHandle, SnapError>)
    ensures
        window == front_window(application_found, focused, first),
{
    if !application_found {
        return Err(SnapError::NotFound);
    }
    match focused {
        Some(window) => Ok(window),
        None => match first {
            Some(window) => Ok(window),
            None => Err(SnapError::NotFound),
        },
    }
}

} // verus!
