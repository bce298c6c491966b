//! A per-frame motion controller for a single actor: movement direction from
//! held keys, sprint activation, stamina depletion and regeneration, and a
//! post-sprint exhaustion cooldown.
//!
//! All quantities are integers: durations and stamina in milliseconds, speeds
//! in distance units per second. A frame's displacement is reported as a raw
//! direction (components in -1 ..= 1) together with its magnitude in
//! milli-units; the caller normalizes the direction and scales it.

pub mod input;
pub mod laws;
pub mod state;
pub mod step;
