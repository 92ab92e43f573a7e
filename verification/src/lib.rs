//! A deterministic, tick-based simulation kernel.
//!
//! A host drives the kernel one discrete step at a time: it initialises a
//! [`SimulationState`] with a seed and an update rate, hands it the input bytes
//! of each tick, and may ask at any point for a compact binary snapshot of the
//! state. Every operation is a total function of the state and its arguments,
//! so a run can be replayed exactly from its seed, rate and inputs.

pub mod replay;
pub mod state;
pub mod wire;

pub use state::{current_tick, init, step, SimView, SimulationState, DEFAULT_RATE_HZ};
pub use wire::snapshot;
