use crate::drag_drop::modifiers::Modifier;
use crate::drag_drop::session::{Surroundings, WindowHandle};
use vstd::prelude::*;

verus! {

/// The settings of the application.
#[derive(Debug, Clone, Copy, PartialEq, Eq, Structural)]
pub struct Settings {
    pub auto_start: bool,
    pub start_minimized: bool,
    pub close_to_system_tray: bool,
}

impl Settings {
    /// Every setting off.
    pub open spec fn all_off() -> Settings {
        Settings { auto_start: false, start_minimized: false, close_to_system_tray: false }
    }

    /// The settings as stored, where each one that was never stored is off.
    pub fn from_stored(
        auto_start: Option<bool>,
        start_minimized: Option<bool>,
        close_to_system_tray: Option<bool>,
    ) -> (settings: Settings)
        ensures
            settings == (Settings {
                auto_start: auto_start == Some(true),
                start_minimized: start_minimized == Some(true),
                close_to_system_tray: close_to_system_tray == Some(true),
            }),
    {
        Settings {
            auto_start: stored_or_off(auto_start),
            start_minimized: stored_or_off(start_minimized),
            close_to_system_tray: stored_or_off(close_to_system_tray),
        }
    }
}

fn stored_or_off(stored: Option<bool>) -> (value: bool)
    ensures
        value == (stored == Some(true)),
{
    match stored {
        Some(value) => value,
        None => false,
    }
}

impl Default for Settings {
    fn default() -> (settings: Settings)
        ensures
            settings == Settings::all_off(),
    {
        Settings { auto_start: false, start_minimized: false, close_to_system_tray: false }
    }
}

/// The modifier that the stored setting names for dragging: none where
/// nothing is stored, and none where what is stored names no modifier, which
/// switches the feature off.
pub open spec fn stored_drag_modifier(stored: Option<&str>) -> Option<Modifier> {
    match stored {
        Some(name) => Modifier::named(name@),
        None => None,
    }
}

/// What is around an event, from the stored settings and the frontmost
/// window: the overlay is shown during a drag unless the setting says not to.
pub fn drag_surroundings(
    frontmost: Option<WindowHandle>,
    drag_modifier_key: Option<&str>,
    show_drag_overlay: Option<bool>,
) -> (around: Surroundings)
    ensures
        around == (Surroundings {
            frontmost,
            drag_modifier: stored_drag_modifier(drag_modifier_key),
            show_drag_overlay: show_drag_overlay != Some(false),
        }),
{
    let drag_modifier = match drag_modifier_key {
        Some(name) => Modifier::from_name(name),
        None => None,
    };
    let show = match show_drag_overlay {
        Some(value) => value,
        None => true,
    };
    Surroundings { frontmost, drag_modifier, show_drag_overlay: show }
}

} // verus!
