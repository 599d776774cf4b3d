//! Execution engine for a fleet of cycle-stepped emulator agents: run-loop
//! pacing, the remote backend wire protocol, frame post-processing, control
//! input handling and the coordinator's sandboxing and control-plane framing.

pub mod config;
pub mod pacer;
pub mod text;
pub mod observation;
pub mod wire;
pub mod control;
pub mod fleet;
pub mod agent;
