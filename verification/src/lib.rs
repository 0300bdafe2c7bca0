//! Multi-device resource registry and admission-control heuristic.
//!
//! The library tracks how much memory is consumed on each of several
//! accelerator devices, picks a least-loaded device for a new unit of work,
//! and decides from lightweight workload-class counters whether CPU-eligible
//! work should be routed to the CPU path instead of an accelerator path.
//! Configuration values arrive as already-read raw strings and are resolved
//! here; reading the environment itself is left to the surrounding
//! application.

use vstd::prelude::*;

pub mod config;
pub mod counters;
pub mod registry;

verus! {

/// Milliseconds a caller is advised to wait before retrying a contended device.
pub const WAIT_GPU: u64 = 1000;

/// Milliseconds a caller is advised to wait between sealing-fact polls.
pub const WAIT_FACT_SEAL: u64 = 10;

} // verus!
