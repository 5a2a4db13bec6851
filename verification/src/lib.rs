//! Contribution statistics: the calendar grid of a year of activity, its
//! totals by day, week, month and year, the row of month labels above it, and
//! the commit counts of recently pushed repositories.
//!
//! Every function here is verified against its contract. The calls into
//! `chrono`, and one into the standard library that has no specification,
//! stand behind private functions whose contracts are believed, not proved;
//! each says so in its documentation.

pub mod buckets;
pub mod calendar;
pub mod commits;
pub mod grid;
pub mod months;
pub mod report;
pub mod session;
pub mod text;
