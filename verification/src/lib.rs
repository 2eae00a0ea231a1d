//! A discrete-event simulator of a single-server queue with stochastic
//! arrivals and service times.
//!
//! The simulation advances by jumping directly to the next relevant event
//! (an arrival or a service completion) rather than in fixed time steps.
//! Durations are measured in integer ticks; the source of random durations
//! is injected through the [`sampler::Sampler`] capability, so the engine
//! itself is independent of any particular probability distribution.

pub mod queue;
pub mod sampler;
pub mod simulation;
