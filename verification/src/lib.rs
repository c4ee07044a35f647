//! Command and convergence engine for a single pan-tilt camera actuator.
//!
//! The crate decides; it performs no device or clock access of its own. A
//! caller that owns the actuator starts a [`cycle::Cycle`] for each request,
//! carries out the action the cycle asks for, and reports what happened.

pub mod cycle;
pub mod laws;
pub mod poller;
pub mod position;
pub mod resolver;
pub mod trace;
pub mod wire;
