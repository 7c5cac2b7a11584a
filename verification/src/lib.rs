//! A split-decision engine for an external run timer.
//!
//! The engine watches a stream of per-tick telemetry snapshots taken from a
//! running game (zone id, story-progress counter, battle-state flags, and a
//! few auxiliary fields) and decides, tick by tick, when the timer should
//! start, reset, or advance to the next segment ("split").  Reading the
//! game's memory and driving the actual timer are left to a thin unverified
//! shell; everything that decides is here, with its behaviour stated in
//! contracts.

pub mod engine;
pub mod enum_set;
pub mod pair;
pub mod rules;
pub mod settings;
pub mod splits;
pub mod telemetry;
pub mod watch;
