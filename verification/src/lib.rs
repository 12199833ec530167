//! Verified core of rspeed, a network speed tester that measures latency,
//! download and upload throughput against Cloudflare or an HTTP server of
//! the user's choosing.
//!
//! - `config`: the resolved configuration, the server URL it carries, and
//!   its validation.
//! - `error`: how a run fails, the exit code and the message of each failure.
//! - `backend`: values crossing the transport seam and the checks made on
//!   them before any request goes out.
//! - `endpoints`: the URLs and TCP address a backend measures against.
//! - `latency`: the latency probe as a state machine (HTTP round trips, TCP
//!   connect fallback, warm-up discard).
//! - `metrics`: the byte counters of a phase, the sampling tick and the
//!   warm-up baseline.
//! - `result`: phases, sorting and the order statistics of the results.
//! - `orchestrator`: which phase runs next and how each phase event is
//!   handled.
//! - `buffer_pool`: the free list of a pool of byte buffers.

pub mod backend;
pub mod buffer_pool;
pub mod config;
pub mod endpoints;
pub mod error;
pub mod latency;
pub mod metrics;
pub mod orchestrator;
pub mod result;
