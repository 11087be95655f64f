//! A Pomodoro-cycle timer engine: interval presets, the work/rest cycle,
//! and a cancellable one-second countdown expressed as a state machine that
//! a host drives step by step.

pub mod config;
pub mod countdown;
pub mod error;
pub mod pomodoro;
pub mod utils;
