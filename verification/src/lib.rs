//! Speedrun-timer logic for an observed game process.
//!
//! The crate turns raw values polled from a running game into timer commands:
//! an edge-triggered watcher engine holds each tracked quantity's previous
//! and current value, a symbolic pointer-path resolver locates values inside
//! the game's relocatable object graph from injected type metadata and a
//! per-tick memory view, a dynamic list reader sums length-prefixed bonus
//! lists, and one state machine per timing mode consumes the observations
//! and emits start/split/skip/reset/pause/resume/set-time commands together
//! with diagnostic key/value pairs.
//!
//! Everything here is pure with respect to the outside world: memory reads
//! and type metadata enter as plain values, and commands leave as plain
//! values, so the whole decision core is deterministic and testable with
//! literal inputs.
pub mod commands;
pub mod driver;
pub mod laws;
pub mod lookup;
pub mod mem_table;
pub mod memory;
pub mod metadata;
pub mod modes;
pub mod observation;
pub mod resolve;
pub mod settings;
pub mod states;
pub mod timeops;

pub use observation::Observation;
