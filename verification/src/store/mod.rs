//! What is kept between runs, as plain data: the zone layouts and the
//! settings that the snapping logic consults.

pub mod settings;
pub mod zone_layouts;
