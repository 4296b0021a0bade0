//! Generation of a chronologically ordered list of Hebrew-calendar events
//! (Torah readings, minor holidays, user-defined observances and daily study
//! cycle entries) over a requested span of years.
//!
//! The civil/religious calendar conversion itself is delegated to an outside
//! calendar crate behind a small trusted boundary (`calendar`); everything
//! built on top of it — candle-lighting classification, the study-cycle
//! offset arithmetic with its skip-day bookkeeping, the range planning,
//! filtering, sorting and text rendering — is verified.

pub mod calendar;
pub mod convert;
pub mod expand;
pub mod laws;
pub mod pipeline;
pub mod render;
pub mod study;
pub mod types;
