//! A simulated burner that tracks a target temperature one tick at a time,
//! with a status machine that decides when progress is announced.
//!
//! Temperatures are held as whole tenths of a degree, so the fixed heating
//! rate of a tenth of a degree per tick is exact. Each tick classifies the
//! level against the goal, moves the level, then reports what is to be said;
//! speaking it is up to the caller.

mod controller;
mod laws;
mod status;
mod units;

pub use controller::{BurnerModel, Controller};
pub use laws::{
    cooled_count, cooling_ticks, lemma_level_bounds, lemma_reaches_goal_once,
    lemma_run_level_bounds, lemma_set_goal_twice, lemma_switch_off_cools_down, reached_count, run,
};
pub use status::{
    ActivityAnnouncement, Announcements, TemperatureAnnouncement, TemperatureStatus, UserActivity,
};
pub use units::{rounded_degrees, spec_rounded_degrees, COOLED_THRESHOLD, TEMPERATURE_RATE};
