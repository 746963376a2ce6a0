//! Window snapping: the geometry of where a window goes, the drag session that
//! decides when it goes there, and the bookkeeping around both.
//!
//! Everything here works on plain values. Looking up windows and monitors,
//! listening for input and driving the overlay surface are left to the caller,
//! which hands in what it observed and carries out what is decided.

pub mod drag_drop;
pub mod hotkeys;
pub mod snapping;
pub mod store;
pub mod window;
pub mod zones;
mod text;
