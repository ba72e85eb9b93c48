//! Error reporting and unwinding across the boundary between host code and a
//! database engine whose errors travel by non-local jumps.
//!
//! - `severity`: the ordered report levels and the two thresholds over them.
//! - `sqlstate`: the five-character status codes, packed six bits a character.
//! - `report`: building one error record and committing it.
//! - `guard`: saving and restoring the engine's jump-target stack and
//!   context-callback chain around a protected region.
//! - `bridge`: choosing the single exit of a guarded region.
pub mod severity;
pub mod sqlstate;
pub mod report;
pub mod guard;
pub mod bridge;
