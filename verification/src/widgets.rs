//! Reusable widgets: their state and the decisions that their drawing reads.
pub mod button;
pub mod picker;
pub mod popup;
pub mod radio;
pub mod status_line;
