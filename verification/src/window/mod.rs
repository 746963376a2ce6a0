//! Which screen a window is on.

pub mod locate;
pub mod screen;
pub mod window_manager;
