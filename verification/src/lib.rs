//! Weather-aware flight-training scheduling core.
//!
//! The library decides whether upcoming flight-training bookings remain safe
//! under current and forecast weather, scores weather quality per training
//! level, generates reschedule suggestions with a deterministic fallback and a
//! time-boxed cache, and grades weather alerts for the monitoring sweeps.
//!
//! Weather quantities are carried as scaled integers: visibility and wind in
//! tenths of a statute mile / knot, temperatures in tenths of a degree
//! Fahrenheit, cloud ceilings in whole feet, and instants as Unix seconds.
//! Weather scores use `SCORE_UNITS_PER_POINT` sub-units per point so that
//! every deduction of the scoring rules is exact.

pub mod api;
pub mod auth;
pub mod csrf;
pub mod error;
pub mod models;
pub mod notify;
pub mod numfmt;
pub mod safety;
pub mod schedule;
pub mod sms;
pub mod suggest;
pub mod text;
pub mod timefmt;
pub mod weather;
