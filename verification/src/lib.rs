//! Fixed-cadence probing of network hosts: the per-target probing schedule,
//! the run report, and the latency statistics drawn from it.

pub mod coordinator;
pub mod display;
pub mod output;
pub mod prober;
pub mod report;
pub mod sample;
pub mod schedule;
pub mod stamp;
pub mod stats;
pub mod target;
pub mod text;
