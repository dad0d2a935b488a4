//! A verified core for an LED transit-arrival sign.
//!
//! The library covers the sign's state-aggregation pipeline: merging live
//! train predictions and operator-injected custom messages into one ordered,
//! time-aware board; the alert announcement state machine; the retry policy
//! for unreliable remote calls; and the decisions the render loop makes each
//! frame. Network access, the canvas backends, and the task plumbing live in
//! the surrounding application, which hands this library plain values.

pub mod alerts;
pub mod config;
pub mod entry;
pub mod laws;
pub mod line;
pub mod merge;
pub mod render;
pub mod retry;
pub(crate) mod rng;
pub mod sort;
pub mod text;
