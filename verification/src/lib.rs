//! Aggregation of Kubernetes pod, container and node metrics into flat records.
//!
//! One cycle takes the pods, the nodes and the metrics of both as plain values
//! ([`objects`]), scans the pods into per-container records and rollups by
//! controller and by node, fills the rollups into the records, and builds the
//! node records ([`metrics_stats_aggregator`]). The records and the counters
//! live in [`kube_stats`]; [`scan_laws`] states what holds of every scan.

pub mod clock;
pub mod decimal;
pub mod kube_stats;
pub mod metrics_stats_aggregator;
pub mod objects;
pub mod scan_laws;
pub mod text;

pub use vstd::hash_map::StringHashMap;
