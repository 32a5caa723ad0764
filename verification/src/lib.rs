//! A single autonomous node in a small, statically configured mesh of peers.
//!
//! Each node periodically queries an external adaptive-weighting service for
//! scoring coefficients and a treasury-split recommendation, folds those
//! coefficients with a fixed set of structural health scores into one
//! composite scalar, and persists the latest results to per-node durable
//! state, while a concurrently scheduled gossip heartbeat exchanges liveness
//! datagrams with a fixed peer set and records inbound messages to an
//! append-only inbox log.
//!
//! All real-valued quantities (structural scores, weights, telemetry) are
//! carried in fixed-point micro-units: an `i64` value of `1_000_000` stands
//! for `1.0`. This keeps every computation exact and lets each contract state
//! the result as plain integer arithmetic.

pub mod client;
pub mod clock;
pub mod heartbeat;
pub mod orchestrator;
pub mod render;
pub mod scoring;
pub mod snapshot;
