//! The record that is written out for each container of each pod.

use crate::kube_stats::container_stats::{ContainerStats, ContainerStatsView};
use crate::kube_stats::controller_stats::ControllerStats;
use crate::kube_stats::pod_stats::{PodStats, PodStatsView};
use vstd::prelude::*;

verus! {

/// A pod, one of its containers, and the rollup of the pod's controller.
#[derive(Debug)]
pub struct ExtendedPodStats {
    pub pod_stats: PodStats,
    pub container_stats: ContainerStats,
    pub controller_stats: ControllerStats,
}

/// The mathematical content of an [`ExtendedPodStats`].
pub ghost struct ExtendedPodStatsView {
    pub pod_stats: PodStatsView,
    pub container_stats: ContainerStatsView,
    pub controller_stats: ControllerStats,
}

impl View for ExtendedPodStats {
    type V = ExtendedPodStatsView;

    open spec fn view(&self) -> ExtendedPodStatsView {
        ExtendedPodStatsView {
            pod_stats: self.pod_stats@,
            container_stats: self.container_stats@,
            controller_stats: self.controller_stats,
        }
    }
}

impl ExtendedPodStats {
    /// Pairs a pod with one of its containers; the controller's rollup is all
    /// zero until it is filled in.
    pub fn new(p_s: PodStats, c_s: ContainerStats) -> (record: Self)
        ensures
            record@ == (ExtendedPodStatsView {
                pod_stats: p_s@,
                container_stats: c_s@,
                controller_stats: ControllerStats::zero(),
            }),
    {
        Self { pod_stats: p_s, container_stats: c_s, controller_stats: ControllerStats::new() }
    }
}

/// The contents of a list of records.
pub open spec fn records_view(records: Seq<ExtendedPodStats>) -> Seq<ExtendedPodStatsView> {
    Seq::new(records.len(), |i: int| records[i]@)
}

} // verus!
