//! Burn-in protection for OLED displays: decides where top-level windows are
//! nudged to, which monitors take part, and when the next pass is due.

pub mod geometry;
pub mod placement;
pub mod device_map;
pub mod monitors;
pub mod settings;
pub mod scheduler;
pub mod controller;
pub mod topology;
pub mod labels;
pub mod dialog;

