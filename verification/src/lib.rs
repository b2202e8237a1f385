//! Core of an industrial control monitor: a record of simulated sensor
//! readings (temperatures, pressures, motor speeds and run states, a safety
//! interlock flag), a pseudo-random simulator that perturbs them on a fixed
//! cadence, and an operational state machine that applies operator commands
//! (run diagnostic, emergency shutdown, reset).
//!
//! Temperatures and pressures are carried as integers in hundredths of a
//! degree Celsius and hundredths of a kilopascal, so that the clamping rules
//! are exact. Presentation, timers and threads live outside this crate; the
//! engine here is a pure state transformer, driven by an injected seed and by
//! timestamps handed in from the caller.

pub mod engine;
pub mod model;
pub mod rng;
