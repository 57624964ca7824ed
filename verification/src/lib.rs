//! An activity graph: a calendar grid of weeks by weekdays in which every day
//! is drawn as one of five block symbols, shaded by how its intensity compares
//! with the highest intensity observed.

pub mod calendar;
pub mod graph;
pub mod intensity;
pub mod surface;

pub use calendar::{Date, Weekday};
pub use graph::ActivityGraph;
pub use intensity::ActivityCellData;
pub use surface::Area;
