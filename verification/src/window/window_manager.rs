use crate::text::{str_eq, strip_prefix};
use crate::zones::zone_windows::zone_label;
use vstd::prelude::*;

verus! {

/// The label of the application's own main window.
pub const PRIMARY_WINDOW_NAME: &'static str = "crosszones";

/// What is to be done about an event of a window.
#[derive(Debug, Clone, PartialEq, Eq)]
pub enum WindowEventStep {
    /// Nothing.
    Ignore,
    /// The window of this zone is closing: it is to be forgotten.
    ForgetZoneWindow { zone_id: String },
    /// The main window is to be hidden in place of being closed.
    HideToTray,
}

/// What is to be done about an event of the window `label`, as a view.
pub enum WindowEventStepView {
    Ignore,
    ForgetZoneWindow { zone_id: Seq<char> },
    HideToTray,
}

impl View for WindowEventStep {
    type V = WindowEventStepView;

    open spec fn view(&self) -> WindowEventStepView {
        match self {
            WindowEventStep::Ignore => WindowEventStepView::Ignore,
            WindowEventStep::ForgetZoneWindow { zone_id } => WindowEventStepView::ForgetZoneWindow {
                zone_id: zone_id@,
            },
            WindowEventStep::HideToTray => WindowEventStepView::HideToTray,
        }
    }
}

/// What follows `zone-` in `label`.
pub open spec fn zone_of(label: Seq<char>) -> Seq<char> {
    label.subrange("zone-"@.len() as int, label.len() as int)
}

/// What is to be done about an event of the window `label`.
///
/// A zone window that is asked to close is forgotten; nothing else is done
/// about a zone window. Of the other windows only the main one counts: asked
/// to close, it is hidden where the setting says so.
pub open spec fn window_event_step(
    label: Seq<char>,
    close_requested: bool,
    close_to_system_tray: bool,
) -> WindowEventStepView {
    if "zone-"@.is_prefix_of(label) {
        if close_requested {
            WindowEventStepView::ForgetZoneWindow { zone_id: zone_of(label) }
        } else {
            WindowEventStepView::Ignore
        }
    } else if label == PRIMARY_WINDOW_NAME@ && close_requested && close_to_system_tray {
        WindowEventStepView::HideToTray
    } else {
        WindowEventStepView::Ignore
    }
}

/// What is to be done about an event of the window `label`: whether it asks
/// the window to close, and whether the setting has the main window hidden in
/// place of closed.
pub fn on_window_event(label: &str, close_requested: bool, close_to_system_tray: bool) -> (step:
    WindowEventStep)
    ensures
        step@ == window_event_step(label@, close_requested, close_to_system_tray),
{
    match strip_prefix(label, "zone-") {
        Some(zone_id) => {
            proof {
                assert("zone-"@.is_prefix_of(label@));
                assert(zone_of(label@) =~= zone_id@);
            }
            if close_requested {
                WindowEventStep::ForgetZoneWindow { zone_id: zone_id.to_owned() }
            } else {
                WindowEventStep::Ignore
            }
        },
        None => {
            if str_eq(label, PRIMARY_WINDOW_NAME) && close_requested && close_to_system_tray {
                WindowEventStep::HideToTray
            } else {
                WindowEventStep::Ignore
            }
        },
    }
}

/// The zone that a forgotten window stood for is the one whose label the
/// window had.
pub proof fn forgotten_zone_has_the_label(label: Seq<char>, close_to_system_tray: bool)
    requires
        "zone-"@.is_prefix_of(label),
    ensures
        window_event_step(label, true, close_to_system_tray) == (WindowEventStepView::ForgetZoneWindow {
            zone_id: zone_of(label),
        }),
        zone_label(zone_of(label)) == label,
{
    assert(zone_label(zone_of(label)) =~= label);
}

} // verus!
