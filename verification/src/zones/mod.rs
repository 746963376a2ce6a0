//! The windows that stand for zones while a layout is edited, and the
//! screens they are laid out on.

pub mod zone_layout_editor;
pub mod zone_windows;
