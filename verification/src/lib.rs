//! Telemetry-to-presentation core for one accelerator ("NPU") tab of a
//! hardware monitor.
//!
//! A periodic, partially populated telemetry snapshot is reduced into a
//! consistent, display-ready presentation model: usage and memory fractions,
//! formatted percentage strings, visibility flags, a stable per-device tab
//! identity, and the ordering key that sorts device tabs. Fractions are kept
//! as exact integer rationals so every derivation step is total and no
//! non-finite value can reach a formatted string or a graph series.
//!
//! Unit formatting (bytes, hertz, watts, degrees) and localized text lookup
//! are collaborators outside this core: their already formatted strings are
//! handed in, and this core only gates them on the presence of the raw datum
//! and composes them.

pub mod derived;
pub mod identity;
pub mod ordering;
pub mod ratio;
pub mod snapshot;
pub mod state;
pub mod text;
