//! Stat records and the rollup counters that feed them.

pub mod container_stats;
pub mod controller_stats;
pub mod extended_pod_stats;
pub mod helpers;
pub mod node_stats;
pub mod pod_stats;
