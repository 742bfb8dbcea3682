//! Build-time constant injection: captures the build's UTC timestamp and the
//! active toolchain version once per build, derives consistent views of them
//! (structured date/time, strings, UNIX seconds, version fields), and renders
//! each view as a literal expression ready to splice into program source.
//!
//! - [`calendar`] and [`instant`]: the captured timestamp, with conversions
//!   between calendar fields and UNIX seconds proved inverse to each other.
//! - [`views`]: the zero-padded date, time and combined date-time strings,
//!   proved mutually consistent.
//! - [`version`] and [`report`]: the captured toolchain version, its
//!   canonical string — proved to read back to the same fields — and the
//!   parsers for version strings and version reports.
//! - [`context`]: the once-per-build capture cache, with idempotence proved.
//! - [`emit`]: the literal emitter, one entry point per view tag.

pub mod calendar;
pub mod context;
pub mod emit;
pub mod fmtnum;
pub mod instant;
pub mod report;
pub mod version;
pub mod views;
