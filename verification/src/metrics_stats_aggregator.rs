//! One cycle of aggregation: usage lookups, the scan of the pods with its
//! rollups, the merge of the rollups into the pod records, and the node records.

use crate::clock::now_millis;
use crate::kube_stats::container_stats::{
    container_stats_of, ContainerStats, ContainerStatsView,
};
use crate::kube_stats::controller_stats::{bump, ControllerStats};
use crate::kube_stats::extended_pod_stats::{
    records_view, ExtendedPodStats, ExtendedPodStatsView,
};
use crate::kube_stats::node_stats::{
    node_stats_of, NodeContainerStats, NodePodStats, NodeStats, NodeStatsView,
};
use crate::kube_stats::pod_stats::{pod_stats_of, PodStats, PodStatsView};
use crate::objects::{
    borrow_or, list_or_empty, str_or_empty, text_or_empty, Container, ContainerMetrics,
    ContainerState, ContainerStatus, Node, NodeMetrics, Pod, PodCondition, PodMetrics,
    PodStatus, Usage,
};
use crate::text::{eq_ignore_ascii_case, same_ignoring_case};
use vstd::hash_map::StringHashMap;
use vstd::prelude::*;

verus! {

/// Milliseconds between the end of one cycle and the start of the next.
pub const POLL_INTERVAL_MILLIS: u64 = 30000;

/// The usage lookup after the entries of one pod's metrics have been added:
/// each entry with a name is stored under it, a later one over an earlier one.
pub open spec fn usage_with_containers(
    usage: Map<Seq<char>, Usage>,
    containers: Seq<ContainerMetrics>,
) -> Map<Seq<char>, Usage>
    decreases containers.len(),
{
    if containers.len() == 0 {
        usage
    } else {
        let before = usage_with_containers(usage, containers.drop_last());
        match containers.last().name {
            Some(name) => before.insert(name@, containers.last().usage),
            None => before,
        }
    }
}

/// The usage lookup after the metrics of a list of pods have been added, in order.
pub open spec fn usage_with_pods(usage: Map<Seq<char>, Usage>, metrics: Seq<PodMetrics>) -> Map<
    Seq<char>,
    Usage,
>
    decreases metrics.len(),
{
    if metrics.len() == 0 {
        usage
    } else {
        usage_with_containers(
            usage_with_pods(usage, metrics.drop_last()),
            list_or_empty(metrics.last().containers),
        )
    }
}

/// The name under which the usage of a node is stored.
pub open spec fn node_metric_name(metric: NodeMetrics) -> Seq<char> {
    match metric.name {
        Some(name) => name@,
        None => "NONE"@,
    }
}

/// The usage lookup after the metrics of a list of nodes have been added, in order.
pub open spec fn usage_with_nodes(usage: Map<Seq<char>, Usage>, metrics: Seq<NodeMetrics>) -> Map<
    Seq<char>,
    Usage,
>
    decreases metrics.len(),
{
    if metrics.len() == 0 {
        usage
    } else {
        usage_with_nodes(usage, metrics.drop_last()).insert(
            node_metric_name(metrics.last()),
            metrics.last().usage,
        )
    }
}

/// Adds the container entries of one pod's metrics to the usage lookup.
fn add_container_metrics(containers: &Vec<ContainerMetrics>, pod_usage_map: &mut StringHashMap<Usage>)
    ensures
        final(pod_usage_map)@ == usage_with_containers(old(pod_usage_map)@, containers@),
{
    let mut i: usize = 0;
    assert(containers@.take(0) == Seq::<ContainerMetrics>::empty());
    while i < containers.len()
        invariant
            i <= containers.len(),
            pod_usage_map@ == usage_with_containers(
                old(pod_usage_map)@,
                containers@.take(i as int),
            ),
        decreases containers.len() - i,
    {
        assert(containers@.take(i + 1).drop_last() == containers@.take(i as int));
        match &containers[i].name {
            Some(name) => {
                pod_usage_map.insert(name.clone(), containers[i].usage.clone());
            },
            None => {},
        }
        i += 1;
    }
    assert(containers@.take(i as int) == containers@);
}

/// Fills the lookup from container name to usage from the metrics of the pods.
pub fn build_pod_metric_map(pod_metrics: &Vec<PodMetrics>, pod_usage_map: &mut StringHashMap<Usage>)
    ensures
        final(pod_usage_map)@ == usage_with_pods(old(pod_usage_map)@, pod_metrics@),
{
    let none: Vec<ContainerMetrics> = Vec::new();
    let mut i: usize = 0;
    assert(pod_metrics@.take(0) == Seq::<PodMetrics>::empty());
    while i < pod_metrics.len()
        invariant
            i <= pod_metrics.len(),
            none@.len() == 0,
            pod_usage_map@ == usage_with_pods(old(pod_usage_map)@, pod_metrics@.take(i as int)),
        decreases pod_metrics.len() - i,
    {
        assert(pod_metrics@.take(i + 1).drop_last() == pod_metrics@.take(i as int));
        let containers = borrow_or(&pod_metrics[i].containers, &none);
        add_container_metrics(containers, pod_usage_map);
        i += 1;
    }
    assert(pod_metrics@.take(i as int) == pod_metrics@);
}

/// Fills the lookup from node name to usage from the metrics of the nodes.
/// A metric without a name is stored under `NONE`.
pub fn build_node_metric_map(
    node_metrics: &Vec<NodeMetrics>,
    node_usage_map: &mut StringHashMap<Usage>,
)
    ensures
        final(node_usage_map)@ == usage_with_nodes(old(node_usage_map)@, node_metrics@),
{
    let mut i: usize = 0;
    assert(node_metrics@.take(0) == Seq::<NodeMetrics>::empty());
    while i < node_metrics.len()
        invariant
            i <= node_metrics.len(),
            node_usage_map@ == usage_with_nodes(
                old(node_usage_map)@,
                node_metrics@.take(i as int),
            ),
        decreases node_metrics.len() - i,
    {
        assert(node_metrics@.take(i + 1).drop_last() == node_metrics@.take(i as int));
        let node_name = match &node_metrics[i].name {
            Some(name) => name.clone(),
            None => "NONE".to_owned(),
        };
        node_usage_map.insert(node_name, node_metrics[i].usage.clone());
        i += 1;
    }
    assert(node_metrics@.take(i as int) == node_metrics@);
}

/// What one scan of the pods gathers: the rollups by controller and by node,
/// and the records of the containers in the order they were met.
pub struct Rollups {
    pub controller_map: StringHashMap<ControllerStats>,
    pub node_pod_counts_map: StringHashMap<NodePodStats>,
    pub node_container_counts_map: StringHashMap<NodeContainerStats>,
    pub extended_pod_stats: Vec<ExtendedPodStats>,
}

/// The mathematical content of a [`Rollups`].
pub ghost struct RollupsView {
    pub controllers: Map<Seq<char>, ControllerStats>,
    pub node_pods: Map<Seq<char>, NodePodStats>,
    pub node_containers: Map<Seq<char>, NodeContainerStats>,
    pub records: Seq<ExtendedPodStatsView>,
}

impl View for Rollups {
    type V = RollupsView;

    open spec fn view(&self) -> RollupsView {
        RollupsView {
            controllers: self.controller_map@,
            node_pods: self.node_pod_counts_map@,
            node_containers: self.node_container_counts_map@,
            records: records_view(self.extended_pod_stats@),
        }
    }
}

/// What has been gathered before any pod is scanned.
pub open spec fn no_rollups() -> RollupsView {
    RollupsView {
        controllers: Map::empty(),
        node_pods: Map::empty(),
        node_containers: Map::empty(),
        records: Seq::empty(),
    }
}

/// The rollup of a controller; all zero for one that no pod has counted for.
pub open spec fn controller_at(
    controllers: Map<Seq<char>, ControllerStats>,
    key: Seq<char>,
) -> ControllerStats {
    if controllers.contains_key(key) {
        controllers[key]
    } else {
        ControllerStats::zero()
    }
}

/// The pod counts of a node; all zero for one on which no pod was counted.
pub open spec fn pods_at(node_pods: Map<Seq<char>, NodePodStats>, node: Seq<char>) -> NodePodStats {
    if node_pods.contains_key(node) {
        node_pods[node]
    } else {
        NodePodStats::zero()
    }
}

/// The container counts of a node; all zero for one on which none was counted.
pub open spec fn containers_at(
    node_containers: Map<Seq<char>, NodeContainerStats>,
    node: Seq<char>,
) -> NodeContainerStats {
    if node_containers.contains_key(node) {
        node_containers[node]
    } else {
        NodeContainerStats::zero()
    }
}

/// The key under which the rollup of a pod's controller is kept: namespace,
/// kind and name of the controller, joined by dots.
pub open spec fn controller_key(pod: PodStatsView) -> Seq<char> {
    pod.namespace + "."@ + pod.controller_type + "."@ + pod.controller
}

/// Whether a pod is scanned at all: it has a spec and a status, and the status
/// lists conditions and container statuses.
pub open spec fn is_scanned(pod: Pod) -> bool {
    &&& pod.spec is Some
    &&& pod.status is Some
    &&& pod.status->0.conditions is Some
    &&& pod.status->0.container_statuses is Some
}

/// Whether a condition says that its pod is ready: type `Ready`, status `True`,
/// each in any case.
pub open spec fn is_ready_condition(condition: PodCondition) -> bool {
    same_ignoring_case(condition.status@, "true"@) && same_ignoring_case(
        condition.type_@,
        "ready"@,
    )
}

/// Whether one of the conditions says that the pod is ready.
pub open spec fn pod_is_ready(conditions: Seq<PodCondition>) -> bool {
    exists|i: int| 0 <= i < conditions.len() && is_ready_condition(#[trigger] conditions[i])
}

/// The statuses of a pod's containers: the regular ones, then those of the
/// init containers.
pub open spec fn statuses_of(status: PodStatus) -> Seq<ContainerStatus> {
    list_or_empty(status.container_statuses) + list_or_empty(status.init_container_statuses)
}

/// A controller's rollup after a list of container statuses has been counted:
/// each one counts as a container, each ready one as a ready container.
pub open spec fn with_statuses(
    stats: ControllerStats,
    statuses: Seq<ContainerStatus>,
) -> ControllerStats
    decreases statuses.len(),
{
    if statuses.len() == 0 {
        stats
    } else {
        let before = with_statuses(stats, statuses.drop_last());
        ControllerStats {
            containers_total: bump(before.containers_total),
            containers_ready: if statuses.last().ready {
                bump(before.containers_ready)
            } else {
                before.containers_ready
            },
            ..before
        }
    }
}

/// A controller's rollup after one of its pods has been counted with the
/// statuses of its containers.
pub open spec fn with_pod(
    stats: ControllerStats,
    ready: bool,
    statuses: Seq<ContainerStatus>,
) -> ControllerStats {
    with_statuses(
        ControllerStats {
            pods_ready: if ready {
                bump(stats.pods_ready)
            } else {
                stats.pods_ready
            },
            pods_total: bump(stats.pods_total),
            ..stats
        },
        statuses,
    )
}

/// The last of `statuses` that bears `name`.
pub open spec fn status_named(statuses: Seq<ContainerStatus>, name: Seq<char>) -> Option<
    ContainerStatus,
>
    decreases statuses.len(),
{
    if statuses.len() == 0 {
        None
    } else if statuses.last().name@ == name {
        Some(statuses.last())
    } else {
        status_named(statuses.drop_last(), name)
    }
}

/// The state that a status reports; one with no part set where it reports none.
pub open spec fn state_of(status: ContainerStatus) -> ContainerState {
    match status.state {
        Some(state) => state,
        None => ContainerState { running: None, terminated: None, waiting: false },
    }
}

/// Whether a declared container can have a record at all: it has a name, an
/// image and resource requirements.
pub open spec fn is_declared(c: Container) -> bool {
    c.name@.len() > 0 && c.image is Some && c.resources is Some
}

/// The record of a declared container, given the statuses of its pod and the
/// usage lookup: `None` where the container lacks a name, an image, resource
/// requirements, a status under its name, or usage under its name.
pub open spec fn container_record(
    c: Container,
    statuses: Seq<ContainerStatus>,
    usage: Map<Seq<char>, Usage>,
    now: i64,
) -> Option<ContainerStatsView> {
    if !is_declared(c) || !usage.contains_key(c.name@) {
        None
    } else {
        match status_named(statuses, c.name@) {
            None => None,
            Some(status) => Some(
                container_stats_of(
                    c,
                    status,
                    state_of(status),
                    text_or_empty(usage[c.name@].cpu),
                    text_or_empty(usage[c.name@].memory),
                    now,
                ),
            ),
        }
    }
}

/// What is gathered after one container's record has been added: the
/// container is counted on the pod's node, and the record joins the list with
/// the controller's rollup still at zero.
pub open spec fn with_record(
    before: RollupsView,
    pod: PodStatsView,
    record: ContainerStatsView,
    init: bool,
) -> RollupsView {
    RollupsView {
        node_containers: before.node_containers.insert(
            pod.node,
            containers_at(before.node_containers, pod.node).with_container(
                record.state,
                record.ready,
                init,
            ),
        ),
        records: before.records.push(
            ExtendedPodStatsView {
                pod_stats: pod,
                container_stats: record,
                controller_stats: ControllerStats::zero(),
            },
        ),
        ..before
    }
}

/// What is gathered after the declared containers of one pod have been
/// scanned in order. A container without a record changes nothing.
pub open spec fn scan_containers(
    before: RollupsView,
    containers: Seq<Container>,
    init: bool,
    pod: PodStatsView,
    statuses: Seq<ContainerStatus>,
    usage: Map<Seq<char>, Usage>,
    now: i64,
) -> RollupsView
    decreases containers.len(),
{
    if containers.len() == 0 {
        before
    } else {
        let earlier = scan_containers(
            before,
            containers.drop_last(),
            init,
            pod,
            statuses,
            usage,
            now,
        );
        match container_record(containers.last(), statuses, usage, now) {
            None => earlier,
            Some(record) => with_record(earlier, pod, record, init),
        }
    }
}

/// What is gathered after one pod has been scanned at time `now`.
///
/// A pod that is not scanned changes nothing. Any other is counted on its
/// node by its phase and for its controller, with all its container statuses;
/// then its containers are scanned, the regular ones before the init ones.
pub open spec fn scan_pod(
    before: RollupsView,
    pod: Pod,
    usage: Map<Seq<char>, Usage>,
    now: i64,
) -> RollupsView {
    if !is_scanned(pod) {
        before
    } else {
        let stats = pod_stats_of(pod, now);
        let statuses = statuses_of(pod.status->0);
        let key = controller_key(stats);
        let counted = RollupsView {
            node_pods: before.node_pods.insert(
                stats.node,
                pods_at(before.node_pods, stats.node).with_pod(stats.phase),
            ),
            controllers: before.controllers.insert(
                key,
                with_pod(
                    controller_at(before.controllers, key),
                    pod_is_ready(pod.status->0.conditions->0@),
                    statuses,
                ),
            ),
            ..before
        };
        let regular = scan_containers(
            counted,
            pod.spec->0.containers@,
            false,
            stats,
            statuses,
            usage,
            now,
        );
        scan_containers(
            regular,
            list_or_empty(pod.spec->0.init_containers),
            true,
            stats,
            statuses,
            usage,
            now,
        )
    }
}

/// What is gathered after a list of pods has been scanned in order.
pub open spec fn scan_pods(
    before: RollupsView,
    pods: Seq<Pod>,
    usage: Map<Seq<char>, Usage>,
    now: i64,
) -> RollupsView
    decreases pods.len(),
{
    if pods.len() == 0 {
        before
    } else {
        scan_pod(scan_pods(before, pods.drop_last(), usage, now), pods.last(), usage, now)
    }
}

/// Counting two lists of statuses one after the other counts their concatenation.
pub proof fn lemma_with_statuses_concat(
    stats: ControllerStats,
    first: Seq<ContainerStatus>,
    second: Seq<ContainerStatus>,
)
    ensures
        with_statuses(with_statuses(stats, first), second) == with_statuses(stats, first + second),
    decreases second.len(),
{
    if second.len() == 0 {
        assert(first + second == first);
    } else {
        lemma_with_statuses_concat(stats, first, second.drop_last());
        assert((first + second).drop_last() == first + second.drop_last());
        assert((first + second).last() == second.last());
    }
}

/// The last status of a name in a concatenation is the last in the second
/// list, or else the last in the first.
pub proof fn lemma_status_named_concat(
    first: Seq<ContainerStatus>,
    second: Seq<ContainerStatus>,
    name: Seq<char>,
)
    ensures
        status_named(first + second, name) == match status_named(second, name) {
            Some(status) => Some(status),
            None => status_named(first, name),
        },
    decreases second.len(),
{
    if second.len() == 0 {
        assert(first + second == first);
    } else {
        lemma_status_named_concat(first, second.drop_last(), name);
        assert((first + second).drop_last() == first + second.drop_last());
        assert((first + second).last() == second.last());
    }
}

/// The key under which the rollup of a pod's controller is kept.
pub fn controller_key_of(pod: &PodStats) -> (key: String)
    ensures
        key@ == controller_key(pod@),
{
    let mut key = pod.namespace.clone();
    key.append(".");
    key.append(pod.controller_type.as_str());
    key.append(".");
    key.append(pod.controller.as_str());
    key
}

/// Whether one of the conditions says that the pod is ready.
pub fn has_ready_condition(conditions: &Vec<PodCondition>) -> (ready: bool)
    ensures
        ready == pod_is_ready(conditions@),
{
    let mut i: usize = 0;
    while i < conditions.len()
        invariant
            i <= conditions.len(),
            forall|j: int| 0 <= j < i ==> !is_ready_condition(#[trigger] conditions@[j]),
        decreases conditions.len() - i,
    {
        if eq_ignore_ascii_case(conditions[i].status.as_str(), "true") && eq_ignore_ascii_case(
            conditions[i].type_.as_str(),
            "ready",
        ) {
            assert(is_ready_condition(conditions@[i as int]));
            return true;
        }
        i += 1;
    }
    false
}

/// Counts a list of container statuses for a controller.
fn count_statuses(controller: &mut ControllerStats, statuses: &Vec<ContainerStatus>)
    ensures
        *final(controller) == with_statuses(*old(controller), statuses@),
{
    let mut i: usize = 0;
    assert(statuses@.take(0) == Seq::<ContainerStatus>::empty());
    while i < statuses.len()
        invariant
            i <= statuses.len(),
            *controller == with_statuses(*old(controller), statuses@.take(i as int)),
        decreases statuses.len() - i,
    {
        assert(statuses@.take(i + 1).drop_last() == statuses@.take(i as int));
        controller.inc_containers_total();
        if statuses[i].ready {
            controller.inc_containers_ready();
        }
        i += 1;
    }
    assert(statuses@.take(i as int) == statuses@);
}

/// The last status in `statuses` that bears `name`.
fn last_named<'a>(statuses: &'a Vec<ContainerStatus>, name: &String) -> (found: Option<
    &'a ContainerStatus,
>)
    ensures
        match found {
            Some(status) => status_named(statuses@, name@) == Some(*status),
            None => status_named(statuses@, name@) is None,
        },
{
    let mut i: usize = statuses.len();
    assert(statuses@.take(i as int) == statuses@);
    while i > 0
        invariant
            i <= statuses.len(),
            status_named(statuses@, name@) == status_named(statuses@.take(i as int), name@),
        decreases i,
    {
        assert(statuses@.take(i as int).drop_last() == statuses@.take(i - 1));
        if statuses[i - 1].name == *name {
            return Some(&statuses[i - 1]);
        }
        i -= 1;
    }
    None
}

/// The status that a pod reports under `name`: the last among those of the
/// init containers, or else the last among those of the regular ones.
fn find_status<'a>(
    regular: &'a Vec<ContainerStatus>,
    init: &'a Vec<ContainerStatus>,
    name: &String,
) -> (found: Option<&'a ContainerStatus>)
    ensures
        match found {
            Some(status) => status_named(regular@ + init@, name@) == Some(*status),
            None => status_named(regular@ + init@, name@) is None,
        },
{
    proof {
        lemma_status_named_concat(regular@, init@, name@);
    }
    match last_named(init, name) {
        Some(status) => Some(status),
        None => last_named(regular, name),
    }
}

impl Rollups {
    /// Rollups with nothing gathered.
    pub fn new() -> (rollups: Self)
        ensures
            rollups@ == no_rollups(),
    {
        let rollups = Rollups {
            controller_map: StringHashMap::new(),
            node_pod_counts_map: StringHashMap::new(),
            node_container_counts_map: StringHashMap::new(),
            extended_pod_stats: Vec::new(),
        };
        assert(records_view(rollups.extended_pod_stats@) == Seq::<ExtendedPodStatsView>::empty());
        rollups
    }
}

/// Builds the record of one declared container that has a status, counts it
/// on the pod's node and adds it to the records; does nothing where the usage
/// lookup holds nothing under the container's name.
pub fn populate_container(
    pod_usage_map: &StringHashMap<Usage>,
    container: &Container,
    container_status: &ContainerStatus,
    rollups: &mut Rollups,
    pod_stats: &PodStats,
    init: bool,
    now: i64,
)
    ensures
        final(rollups)@ == if pod_usage_map@.contains_key(container.name@) {
            with_record(
                old(rollups)@,
                pod_stats@,
                container_stats_of(
                    *container,
                    *container_status,
                    state_of(*container_status),
                    text_or_empty(pod_usage_map@[container.name@].cpu),
                    text_or_empty(pod_usage_map@[container.name@].memory),
                    now,
                ),
                init,
            )
        } else {
            old(rollups)@
        },
{
    match pod_usage_map.get(container.name.as_str()) {
        Some(usage) => {
            let unset = ContainerState { running: None, terminated: None, waiting: false };
            let state = match &container_status.state {
                Some(state) => state,
                None => &unset,
            };
            let container_stats = ContainerStats::builder(
                container,
                container_status,
                state,
                str_or_empty(&usage.cpu),
                str_or_empty(&usage.memory),
            ).build_at(now);

            let mut node_container_stat = match rollups.node_container_counts_map.get(
                pod_stats.node.as_str(),
            ) {
                Some(stat) => *stat,
                None => NodeContainerStats::new(),
            };
            node_container_stat.inc(
                container_stats.state.as_str(),
                container_stats.ready,
                init,
            );
            rollups.node_container_counts_map.insert(
                pod_stats.node.clone(),
                node_container_stat,
            );

            let record = ExtendedPodStats::new(pod_stats.clone(), container_stats);
            let ghost before = rollups.extended_pod_stats@;
            rollups.extended_pod_stats.push(record);
            assert(records_view(rollups.extended_pod_stats@) == records_view(before).push(record@));
        },
        None => {},
    }
}

/// Scans the declared containers of one pod, regular or init, in order.
fn populate_containers(
    pod_usage_map: &StringHashMap<Usage>,
    containers: &Vec<Container>,
    regular_statuses: &Vec<ContainerStatus>,
    init_statuses: &Vec<ContainerStatus>,
    rollups: &mut Rollups,
    pod_stats: &PodStats,
    init: bool,
    now: i64,
)
    ensures
        final(rollups)@ == scan_containers(
            old(rollups)@,
            containers@,
            init,
            pod_stats@,
            regular_statuses@ + init_statuses@,
            pod_usage_map@,
            now,
        ),
{
    let ghost statuses = regular_statuses@ + init_statuses@;
    let mut i: usize = 0;
    assert(containers@.take(0) == Seq::<Container>::empty());
    while i < containers.len()
        invariant
            i <= containers.len(),
            statuses == regular_statuses@ + init_statuses@,
            rollups@ == scan_containers(
                old(rollups)@,
                containers@.take(i as int),
                init,
                pod_stats@,
                statuses,
                pod_usage_map@,
                now,
            ),
        decreases containers.len() - i,
    {
        assert(containers@.take(i + 1).drop_last() == containers@.take(i as int));
        let container = &containers[i];
        if !(container.name.as_str().is_empty() || container.image.is_none()
            || container.resources.is_none()) {
            match find_status(regular_statuses, init_statuses, &container.name) {
                Some(container_status) => {
                    populate_container(
                        pod_usage_map,
                        container,
                        container_status,
                        rollups,
                        pod_stats,
                        init,
                        now,
                    );
                },
                None => {},
            }
        }
        i += 1;
    }
    assert(containers@.take(i as int) == containers@);
}

/// Scans one pod at time `now`.
pub fn process_pod(
    pod: &Pod,
    pod_usage_map: &StringHashMap<Usage>,
    rollups: &mut Rollups,
    now: i64,
)
    ensures
        final(rollups)@ == scan_pod(old(rollups)@, *pod, pod_usage_map@, now),
{
    let (spec, status) = match (&pod.spec, &pod.status) {
        (Some(spec), Some(status)) => (spec, status),
        _ => {
            return ;
        },
    };
    let (conditions, regular_statuses) = match (&status.conditions, &status.container_statuses) {
        (Some(conditions), Some(statuses)) => (conditions, statuses),
        _ => {
            return ;
        },
    };
    let no_statuses: Vec<ContainerStatus> = Vec::new();
    let init_statuses = borrow_or(&status.init_container_statuses, &no_statuses);
    let no_containers: Vec<Container> = Vec::new();
    let init_containers = borrow_or(&spec.init_containers, &no_containers);

    let pod_stats = PodStats::builder(pod).build_at(now);

    let mut node_pod_stat = match rollups.node_pod_counts_map.get(pod_stats.node.as_str()) {
        Some(stat) => *stat,
        None => NodePodStats::new(),
    };
    node_pod_stat.inc(pod_stats.phase.as_str());
    rollups.node_pod_counts_map.insert(pod_stats.node.clone(), node_pod_stat);

    let controller_key = controller_key_of(&pod_stats);
    let mut controller = match rollups.controller_map.get(controller_key.as_str()) {
        Some(stats) => *stats,
        None => ControllerStats::new(),
    };
    if has_ready_condition(conditions) {
        controller.inc_pods_ready();
    }
    controller.inc_pods_total();
    count_statuses(&mut controller, regular_statuses);
    count_statuses(&mut controller, init_statuses);
    proof {
        lemma_with_statuses_concat(
            ControllerStats {
                pods_ready: if pod_is_ready(conditions@) {
                    bump(controller_at(old(rollups)@.controllers, controller_key@).pods_ready)
                } else {
                    controller_at(old(rollups)@.controllers, controller_key@).pods_ready
                },
                pods_total: bump(controller_at(old(rollups)@.controllers, controller_key@).pods_total),
                ..controller_at(old(rollups)@.controllers, controller_key@)
            },
            regular_statuses@,
            init_statuses@,
        );
    }
    rollups.controller_map.insert(controller_key, controller);

    populate_containers(
        pod_usage_map,
        &spec.containers,
        regular_statuses,
        init_statuses,
        rollups,
        &pod_stats,
        false,
        now,
    );
    populate_containers(
        pod_usage_map,
        init_containers,
        regular_statuses,
        init_statuses,
        rollups,
        &pod_stats,
        true,
        now,
    );
}

/// Scans the pods in order at time `now`: builds the records of their
/// containers and the rollups by controller and by node.
pub fn process_pods(
    pods: &Vec<Pod>,
    pod_usage_map: &StringHashMap<Usage>,
    rollups: &mut Rollups,
    now: i64,
)
    ensures
        final(rollups)@ == scan_pods(old(rollups)@, pods@, pod_usage_map@, now),
{
    let mut i: usize = 0;
    assert(pods@.take(0) == Seq::<Pod>::empty());
    while i < pods.len()
        invariant
            i <= pods.len(),
            rollups@ == scan_pods(old(rollups)@, pods@.take(i as int), pod_usage_map@, now),
        decreases pods.len() - i,
    {
        assert(pods@.take(i + 1).drop_last() == pods@.take(i as int));
        process_pod(&pods[i], pod_usage_map, rollups, now);
        i += 1;
    }
    assert(pods@.take(i as int) == pods@);
}

/// A record with the rollup of its pod's controller filled in; the record as
/// it is where no rollup is kept under the controller's key.
pub open spec fn merged(
    record: ExtendedPodStatsView,
    controllers: Map<Seq<char>, ControllerStats>,
) -> ExtendedPodStatsView {
    let key = controller_key(record.pod_stats);
    if controllers.contains_key(key) {
        ExtendedPodStatsView { controller_stats: controllers[key], ..record }
    } else {
        record
    }
}

/// The records with the rollups of their controllers filled in.
pub open spec fn merged_records(
    records: Seq<ExtendedPodStatsView>,
    controllers: Map<Seq<char>, ControllerStats>,
) -> Seq<ExtendedPodStatsView> {
    Seq::new(records.len(), |i: int| merged(records[i], controllers))
}

/// Fills the rollup of its controller into each record, once the scan of the
/// pods is over and the rollups are final.
pub fn merge_controller_stats(rollups: &mut Rollups)
    ensures
        final(rollups)@ == (RollupsView {
            records: merged_records(old(rollups)@.records, old(rollups)@.controllers),
            ..old(rollups)@
        }),
{
    let mut i: usize = 0;
    let ghost start = rollups@;
    while i < rollups.extended_pod_stats.len()
        invariant
            i <= rollups.extended_pod_stats.len(),
            start == old(rollups)@,
            rollups@.controllers == start.controllers,
            rollups@.node_pods == start.node_pods,
            rollups@.node_containers == start.node_containers,
            rollups@.records.len() == start.records.len(),
            forall|j: int|
                0 <= j < i ==> #[trigger] rollups@.records[j] == merged(
                    start.records[j],
                    start.controllers,
                ),
            forall|j: int|
                i <= j < start.records.len() ==> #[trigger] rollups@.records[j]
                    == start.records[j],
        decreases rollups.extended_pod_stats.len() - i,
    {
        let controller_key = controller_key_of(&rollups.extended_pod_stats[i].pod_stats);
        let ghost before = rollups.extended_pod_stats@;
        assert(records_view(before)[i as int] == start.records[i as int]);
        match rollups.controller_map.get(controller_key.as_str()) {
            Some(stats) => {
                let found = *stats;
                rollups.extended_pod_stats[i].controller_stats.copy_stats(&found);
            },
            None => {},
        }
        let ghost after = rollups.extended_pod_stats@;
        assert(records_view(after)[i as int] == merged(start.records[i as int], start.controllers));
        assert forall|j: int| 0 <= j < i + 1 implies #[trigger] rollups@.records[j] == merged(
            start.records[j],
            start.controllers,
        ) by {
            if j < i {
                assert(records_view(after)[j] == records_view(before)[j]);
            }
        }
        assert forall|j: int| i + 1 <= j < start.records.len() implies #[trigger] rollups@.records[j]
            == start.records[j] by {
            assert(records_view(after)[j] == records_view(before)[j]);
        }
        i += 1;
    }
    assert(rollups@.records =~= merged_records(start.records, start.controllers));
}

/// The line under which a record is written out: the record's JSON text as
/// the value of the one key `kube`. A record that could not be turned into
/// JSON text has no line.
pub fn kube_line(record: Option<&str>) -> (line: Option<String>)
    ensures
        record is None ==> line is None,
        record is Some ==> line is Some && line->0@ == "{\"kube\":"@ + record->0@ + "}"@,
{
    match record {
        Some(json) => {
            let mut line = "{\"kube\":".to_owned();
            line.append(json);
            line.append("}");
            Some(line)
        },
        None => None,
    }
}

/// Whether a node is written out: it has a spec, a status and a name, and the
/// usage lookup holds an entry under that name.
pub open spec fn is_reported(node: Node, usage: Map<Seq<char>, Usage>) -> bool {
    &&& node.spec is Some
    &&& node.status is Some
    &&& node.metadata.name is Some
    &&& usage.contains_key(node.metadata.name->0@)
}

/// The record of a node that is written out, at time `now`: its counts are
/// those gathered under its name, all zero where none were.
pub open spec fn node_record(
    node: Node,
    usage: Map<Seq<char>, Usage>,
    rollups: RollupsView,
    now: i64,
) -> NodeStatsView {
    let name = node.metadata.name->0@;
    node_stats_of(
        node,
        pods_at(rollups.node_pods, name),
        containers_at(rollups.node_containers, name),
        text_or_empty(usage[name].cpu),
        text_or_empty(usage[name].memory),
        now,
    )
}

/// The records of the nodes that are written out, in the order of the nodes.
pub open spec fn node_records(
    nodes: Seq<Node>,
    usage: Map<Seq<char>, Usage>,
    rollups: RollupsView,
    now: i64,
) -> Seq<NodeStatsView>
    decreases nodes.len(),
{
    if nodes.len() == 0 {
        Seq::empty()
    } else {
        let earlier = node_records(nodes.drop_last(), usage, rollups, now);
        if is_reported(nodes.last(), usage) {
            earlier.push(node_record(nodes.last(), usage, rollups, now))
        } else {
            earlier
        }
    }
}

/// The contents of a list of node records.
pub open spec fn node_views(records: Seq<NodeStats>) -> Seq<NodeStatsView> {
    Seq::new(records.len(), |i: int| records[i]@)
}

/// Builds the records of the nodes at time `now` from the rollups that the
/// scan of the pods has gathered, and appends them to `output_node_vec`.
pub fn process_nodes(
    nodes: &Vec<Node>,
    node_usage_map: &StringHashMap<Usage>,
    output_node_vec: &mut Vec<NodeStats>,
    rollups: &Rollups,
    now: i64,
)
    ensures
        node_views(final(output_node_vec)@) == node_views(old(output_node_vec)@) + node_records(
            nodes@,
            node_usage_map@,
            rollups@,
            now,
        ),
{
    let mut i: usize = 0;
    assert(nodes@.take(0) == Seq::<Node>::empty());
    assert(node_views(output_node_vec@) + Seq::<NodeStatsView>::empty() == node_views(
        output_node_vec@,
    ));
    while i < nodes.len()
        invariant
            i <= nodes.len(),
            node_views(output_node_vec@) == node_views(old(output_node_vec)@) + node_records(
                nodes@.take(i as int),
                node_usage_map@,
                rollups@,
                now,
            ),
        decreases nodes.len() - i,
    {
        assert(nodes@.take(i + 1).drop_last() == nodes@.take(i as int));
        let node = &nodes[i];
        i += 1;
        let name = match (&node.spec, &node.status, &node.metadata.name) {
            (Some(_), Some(_), Some(name)) => name,
            _ => {
                continue ;
            },
        };
        let node_container_stats = match rollups.node_container_counts_map.get(name.as_str()) {
            Some(stats) => *stats,
            None => NodeContainerStats::new(),
        };
        let node_pod_stats = match rollups.node_pod_counts_map.get(name.as_str()) {
            Some(stats) => *stats,
            None => NodePodStats::new(),
        };
        match node_usage_map.get(name.as_str()) {
            Some(usage) => {
                let stats_of_node = NodeStats::builder(
                    node,
                    &node_pod_stats,
                    &node_container_stats,
                    str_or_empty(&usage.cpu),
                    str_or_empty(&usage.memory),
                ).build_at(now);
                let ghost before = output_node_vec@;
                output_node_vec.push(stats_of_node);
                assert(node_views(output_node_vec@) == node_views(before).push(stats_of_node@));
            },
            None => {},
        }
    }
    assert(nodes@.take(i as int) == nodes@);
}

/// What one cycle writes out.
pub struct Report {
    pub pods: Vec<ExtendedPodStats>,
    pub nodes: Vec<NodeStats>,
}

/// What the scan of the pods of one cycle gathers, starting from nothing.
pub open spec fn cycle_rollups(pods: Seq<Pod>, pod_metrics: Seq<PodMetrics>, now: i64) -> RollupsView {
    scan_pods(no_rollups(), pods, usage_with_pods(Map::empty(), pod_metrics), now)
}

/// The pod records of one cycle: one for each container with a record, in
/// the order of the scan, each with the final rollup of its controller.
pub open spec fn cycle_pod_records(
    pods: Seq<Pod>,
    pod_metrics: Seq<PodMetrics>,
    now: i64,
) -> Seq<ExtendedPodStatsView> {
    let rollups = cycle_rollups(pods, pod_metrics, now);
    merged_records(rollups.records, rollups.controllers)
}

/// The node records of one cycle, with the counts that its scan of the pods gathered.
pub open spec fn cycle_node_records(
    pods: Seq<Pod>,
    nodes: Seq<Node>,
    pod_metrics: Seq<PodMetrics>,
    node_metrics: Seq<NodeMetrics>,
    now: i64,
) -> Seq<NodeStatsView> {
    node_records(
        nodes,
        usage_with_nodes(Map::empty(), node_metrics),
        cycle_rollups(pods, pod_metrics, now),
        now,
    )
}

/// Runs one cycle at time `now` on what was fetched from the cluster.
pub fn process_reporter_info_at(
    pods: &Vec<Pod>,
    nodes: &Vec<Node>,
    pod_metrics: &Vec<PodMetrics>,
    node_metrics: &Vec<NodeMetrics>,
    now: i64,
) -> (report: Report)
    ensures
        records_view(report.pods@) == cycle_pod_records(pods@, pod_metrics@, now),
        node_views(report.nodes@) == cycle_node_records(
            pods@,
            nodes@,
            pod_metrics@,
            node_metrics@,
            now,
        ),
{
    let mut rollups = Rollups::new();
    let mut pod_usage_map: StringHashMap<Usage> = StringHashMap::new();
    let mut node_usage_map: StringHashMap<Usage> = StringHashMap::new();
    let mut node_stats: Vec<NodeStats> = Vec::new();

    build_pod_metric_map(pod_metrics, &mut pod_usage_map);
    process_pods(pods, &pod_usage_map, &mut rollups, now);
    merge_controller_stats(&mut rollups);

    build_node_metric_map(node_metrics, &mut node_usage_map);
    assert(node_views(node_stats@) == Seq::<NodeStatsView>::empty());
    process_nodes(nodes, &node_usage_map, &mut node_stats, &rollups, now);
    proof {
        let scanned = cycle_rollups(pods@, pod_metrics@, now);
        let merged_rollups = RollupsView {
            records: merged_records(scanned.records, scanned.controllers),
            ..scanned
        };
        lemma_node_records_ignore_pod_records(
            nodes@,
            usage_with_nodes(Map::empty(), node_metrics@),
            merged_rollups,
            scanned,
            now,
        );
        assert(Seq::<NodeStatsView>::empty() + node_records(
            nodes@,
            node_usage_map@,
            rollups@,
            now,
        ) == node_records(nodes@, node_usage_map@, rollups@, now));
    }
    Report { pods: rollups.extended_pod_stats, nodes: node_stats }
}

/// The node records depend on the counts by node alone.
pub proof fn lemma_node_records_ignore_pod_records(
    nodes: Seq<Node>,
    usage: Map<Seq<char>, Usage>,
    first: RollupsView,
    second: RollupsView,
    now: i64,
)
    requires
        first.node_pods == second.node_pods,
        first.node_containers == second.node_containers,
    ensures
        node_records(nodes, usage, first, now) == node_records(nodes, usage, second, now),
    decreases nodes.len(),
{
    if nodes.len() > 0 {
        lemma_node_records_ignore_pod_records(nodes.drop_last(), usage, first, second, now);
    }
}

/// Runs one cycle, as of the time that the clock shows, on what was fetched
/// from the cluster.
pub fn process_reporter_info(
    pods: &Vec<Pod>,
    nodes: &Vec<Node>,
    pod_metrics: &Vec<PodMetrics>,
    node_metrics: &Vec<NodeMetrics>,
) -> (report: Report)
    ensures
        exists|now: i64|
            {
                &&& records_view(report.pods@) == cycle_pod_records(pods@, pod_metrics@, now)
                &&& node_views(report.nodes@) == cycle_node_records(
                    pods@,
                    nodes@,
                    pod_metrics@,
                    node_metrics@,
                    now,
                )
            },
{
    let now = now_millis();
    let report = process_reporter_info_at(pods, nodes, pod_metrics, node_metrics, now);
    assert(records_view(report.pods@) == cycle_pod_records(pods@, pod_metrics@, now));
    report
}

} // verus!
