//! A Pomodoro timer: a phase sequencer that cycles between work and breaks.
//!
//! The sequencer itself never sleeps. Each transition hands back a
//! [`PhaseChange`] that names the phase entered and how long the caller should
//! wait in it, so the blocking and the reporting stay with the driving code.

pub mod domodoro;
pub mod laws;

pub use domodoro::{ConfigError, PhaseChange, Pomodoro, State};
