//! Node records, and the per-node counts of pods and containers.

use crate::clock::{elapsed, elapsed_millis, now_millis, seconds_of, whole_seconds};
use crate::decimal::{parse_i64, parsed_i64};
use crate::kube_stats::controller_stats::{bump, bumped};
use crate::kube_stats::helpers::{
    convert_cpu_usage_to_milli, convert_memory_usage_to_bytes, cpu_quantity_millis,
    memory_quantity_bytes, saturate_i64,
};
use crate::objects::{clone_or_empty, text_or_empty, Node, NodeAddress, NodeCondition};
use crate::text::{eq_ignore_ascii_case, same_ignoring_case};
use vstd::prelude::*;

verus! {

/// Millicores in one core.
pub const CPU_MULTIPLIER: i64 = 1000;

/// What a quantity that is missing, or not written as an integer, is recorded as.
pub const ABSENT: i64 = -1;

/// Counts of the pods on one node, by phase.
#[derive(Clone, Copy, Debug, PartialEq, Eq, Structural)]
pub struct NodePodStats {
    pub pods_failed: i32,
    pub pods_pending: i32,
    pub pods_running: i32,
    pub pods_succeeded: i32,
    pub pods_unknown: i32,
    pub pods_total: i32,
}

impl NodePodStats {
    /// The counts with every one at zero.
    pub open spec fn zero() -> NodePodStats {
        NodePodStats {
            pods_failed: 0,
            pods_pending: 0,
            pods_running: 0,
            pods_succeeded: 0,
            pods_unknown: 0,
            pods_total: 0,
        }
    }

    /// The counts after one more pod in `phase`: the total grows, and so does the
    /// count of the phase, whatever the case of its letters; a phase that is
    /// none of the five counts as unknown.
    pub open spec fn with_pod(self, phase: Seq<char>) -> NodePodStats {
        let counted = NodePodStats { pods_total: bump(self.pods_total), ..self };
        if same_ignoring_case(phase, "failed"@) {
            NodePodStats { pods_failed: bump(self.pods_failed), ..counted }
        } else if same_ignoring_case(phase, "pending"@) {
            NodePodStats { pods_pending: bump(self.pods_pending), ..counted }
        } else if same_ignoring_case(phase, "running"@) {
            NodePodStats { pods_running: bump(self.pods_running), ..counted }
        } else if same_ignoring_case(phase, "succeeded"@) {
            NodePodStats { pods_succeeded: bump(self.pods_succeeded), ..counted }
        } else {
            NodePodStats { pods_unknown: bump(self.pods_unknown), ..counted }
        }
    }

    /// Counts with every one at zero.
    pub fn new() -> (stats: Self)
        ensures
            stats == Self::zero(),
    {
        NodePodStats {
            pods_failed: 0,
            pods_pending: 0,
            pods_running: 0,
            pods_succeeded: 0,
            pods_unknown: 0,
            pods_total: 0,
        }
    }

    /// Counts one more pod in `phase`.
    pub fn inc(&mut self, phase: &str)
        ensures
            *final(self) == old(self).with_pod(phase@),
    {
        self.pods_total = bumped(self.pods_total);
        if eq_ignore_ascii_case(phase, "failed") {
            self.pods_failed = bumped(self.pods_failed);
        } else if eq_ignore_ascii_case(phase, "pending") {
            self.pods_pending = bumped(self.pods_pending);
        } else if eq_ignore_ascii_case(phase, "running") {
            self.pods_running = bumped(self.pods_running);
        } else if eq_ignore_ascii_case(phase, "succeeded") {
            self.pods_succeeded = bumped(self.pods_succeeded);
        } else {
            self.pods_unknown = bumped(self.pods_unknown);
        }
    }
}

/// Counts of the containers on one node, by state.
#[derive(Clone, Copy, Debug, PartialEq, Eq, Structural)]
pub struct NodeContainerStats {
    pub containers_waiting: i32,
    pub containers_total: i32,
    pub containers_terminated: i32,
    pub containers_running: i32,
    pub containers_ready: i32,
    pub containers_init: i32,
}

impl NodeContainerStats {
    /// The counts with every one at zero.
    pub open spec fn zero() -> NodeContainerStats {
        NodeContainerStats {
            containers_waiting: 0,
            containers_total: 0,
            containers_terminated: 0,
            containers_running: 0,
            containers_ready: 0,
            containers_init: 0,
        }
    }

    /// The counts after one more container: an init container is counted as
    /// such whatever its state; a waiting, terminated or running one grows its
    /// state's count and the total, a running one that is ready the ready
    /// count too; any other state leaves states and total as they are.
    pub open spec fn with_container(self, state: Seq<char>, ready: bool, init: bool)
        -> NodeContainerStats {
        let seen = if init {
            NodeContainerStats { containers_init: bump(self.containers_init), ..self }
        } else {
            self
        };
        if same_ignoring_case(state, "waiting"@) {
            NodeContainerStats {
                containers_waiting: bump(self.containers_waiting),
                containers_total: bump(self.containers_total),
                ..seen
            }
        } else if same_ignoring_case(state, "terminated"@) {
            NodeContainerStats {
                containers_terminated: bump(self.containers_terminated),
                containers_total: bump(self.containers_total),
                ..seen
            }
        } else if same_ignoring_case(state, "running"@) {
            NodeContainerStats {
                containers_running: bump(self.containers_running),
                containers_total: bump(self.containers_total),
                containers_ready: if ready {
                    bump(self.containers_ready)
                } else {
                    self.containers_ready
                },
                ..seen
            }
        } else {
            seen
        }
    }

    /// Counts with every one at zero.
    pub fn new() -> (stats: Self)
        ensures
            stats == Self::zero(),
    {
        NodeContainerStats {
            containers_waiting: 0,
            containers_total: 0,
            containers_terminated: 0,
            containers_running: 0,
            containers_ready: 0,
            containers_init: 0,
        }
    }

    /// Counts one more container in `state`.
    pub fn inc(&mut self, state: &str, ready: bool, init: bool)
        ensures
            *final(self) == old(self).with_container(state@, ready, init),
    {
        if init {
            self.containers_init = bumped(self.containers_init);
        }
        if eq_ignore_ascii_case(state, "waiting") {
            self.containers_waiting = bumped(self.containers_waiting);
            self.containers_total = bumped(self.containers_total);
        } else if eq_ignore_ascii_case(state, "terminated") {
            self.containers_terminated = bumped(self.containers_terminated);
            self.containers_total = bumped(self.containers_total);
        } else if eq_ignore_ascii_case(state, "running") {
            self.containers_running = bumped(self.containers_running);
            self.containers_total = bumped(self.containers_total);
            if ready {
                self.containers_ready = bumped(self.containers_ready);
            }
        }
    }
}

/// Whether no count of pods is negative and the counts by phase add up to the total.
pub open spec fn pod_counts_add_up(stats: NodePodStats) -> bool {
    &&& stats.pods_failed >= 0
    &&& stats.pods_pending >= 0
    &&& stats.pods_running >= 0
    &&& stats.pods_succeeded >= 0
    &&& stats.pods_unknown >= 0
    &&& stats.pods_total == stats.pods_failed + stats.pods_pending + stats.pods_running
        + stats.pods_succeeded + stats.pods_unknown
}

/// Whether no count of containers is negative, the counts by state add up to
/// the total, and no more containers are ready than are running.
pub open spec fn container_counts_add_up(stats: NodeContainerStats) -> bool {
    &&& stats.containers_waiting >= 0
    &&& stats.containers_terminated >= 0
    &&& stats.containers_running >= 0
    &&& stats.containers_init >= 0
    &&& 0 <= stats.containers_ready <= stats.containers_running
    &&& stats.containers_total == stats.containers_waiting + stats.containers_terminated
        + stats.containers_running
}

/// Counts of pods that add up still do after one more pod, for as long as the
/// total has room; they do at the start.
pub proof fn lemma_pod_counts_keep_adding_up(stats: NodePodStats, phase: Seq<char>)
    requires
        pod_counts_add_up(stats),
        stats.pods_total < i32::MAX,
    ensures
        pod_counts_add_up(stats.with_pod(phase)),
        stats.with_pod(phase).pods_total == stats.pods_total + 1,
        pod_counts_add_up(NodePodStats::zero()),
{
}

/// Counts of containers that add up still do after one more container, for as
/// long as the total has room; they do at the start.
pub proof fn lemma_container_counts_keep_adding_up(
    stats: NodeContainerStats,
    state: Seq<char>,
    ready: bool,
    init: bool,
)
    requires
        container_counts_add_up(stats),
        stats.containers_total < i32::MAX,
    ensures
        container_counts_add_up(stats.with_container(state, ready, init)),
        container_counts_add_up(NodeContainerStats::zero()),
{
}

/// What a node's `Ready` conditions say, taken together.
pub struct Readiness {
    pub heartbeat_age: i64,
    pub heartbeat_time: i64,
    pub message: String,
    pub status: String,
    pub transition_age: i64,
    pub transition_time: i64,
    pub ready: Option<bool>,
}

/// The mathematical content of a [`Readiness`].
pub ghost struct ReadinessView {
    pub heartbeat_age: i64,
    pub heartbeat_time: i64,
    pub message: Seq<char>,
    pub status: Seq<char>,
    pub transition_age: i64,
    pub transition_time: i64,
    pub ready: Option<bool>,
}

impl View for Readiness {
    type V = ReadinessView;

    open spec fn view(&self) -> ReadinessView {
        ReadinessView {
            heartbeat_age: self.heartbeat_age,
            heartbeat_time: self.heartbeat_time,
            message: self.message@,
            status: self.status@,
            transition_age: self.transition_age,
            transition_time: self.transition_time,
            ready: self.ready,
        }
    }
}

/// The readiness of a node of which no `Ready` condition is known.
pub open spec fn no_readiness() -> ReadinessView {
    ReadinessView {
        heartbeat_age: 0,
        heartbeat_time: 0,
        message: Seq::empty(),
        status: Seq::empty(),
        transition_age: 0,
        transition_time: 0,
        ready: None,
    }
}

/// The readiness after one more condition has been read at time `now`.
///
/// Only a condition of type `Ready`, in any case, counts. It sets the status
/// and the message, and `ready` says whether its status is `True`, in any
/// case. Its heartbeat, where it has one, sets the heartbeat fields; its
/// transition time, where it has one, sets the transition fields.
pub open spec fn readiness_after(
    before: ReadinessView,
    condition: NodeCondition,
    now: i64,
) -> ReadinessView {
    if !same_ignoring_case(condition.type_@, "ready"@) {
        before
    } else {
        let beaten = match condition.last_heartbeat_time {
            Some(heartbeat) => ReadinessView {
                heartbeat_age: elapsed(now, heartbeat),
                heartbeat_time: seconds_of(heartbeat),
                ..before
            },
            None => before,
        };
        let moved = match condition.last_transition_time {
            Some(transition) => ReadinessView {
                transition_age: elapsed(now, transition),
                transition_time: seconds_of(transition),
                ..beaten
            },
            None => beaten,
        };
        ReadinessView {
            message: text_or_empty(condition.message),
            status: condition.status@,
            ready: Some(same_ignoring_case(condition.status@, "true"@)),
            ..moved
        }
    }
}

/// The readiness that a list of conditions gives, read in order at time `now`.
pub open spec fn readiness_of(conditions: Seq<NodeCondition>, now: i64) -> ReadinessView
    decreases conditions.len(),
{
    if conditions.len() == 0 {
        no_readiness()
    } else {
        readiness_after(readiness_of(conditions.drop_last(), now), conditions.last(), now)
    }
}

/// Where the last condition of a list is of type `Ready`, in any case, status
/// and message are its own, whether or not it bears a heartbeat or a
/// transition time, and `ready` says whether its status is `True`.
pub proof fn lemma_last_ready_condition_decides(conditions: Seq<NodeCondition>, now: i64)
    requires
        conditions.len() > 0,
        same_ignoring_case(conditions.last().type_@, "ready"@),
    ensures
        readiness_of(conditions, now).status == conditions.last().status@,
        readiness_of(conditions, now).message == text_or_empty(conditions.last().message),
        readiness_of(conditions, now).ready == Some(
            same_ignoring_case(conditions.last().status@, "true"@),
        ),
{
}

/// The address of the last entry of `addresses` whose type is `kind`, in any
/// case; the empty text where there is none.
pub open spec fn address_of(addresses: Seq<NodeAddress>, kind: Seq<char>) -> Seq<char>
    decreases addresses.len(),
{
    if addresses.len() == 0 {
        Seq::empty()
    } else if same_ignoring_case(addresses.last().type_@, kind) {
        addresses.last().address@
    } else {
        address_of(addresses.drop_last(), kind)
    }
}

/// The integer that a quantity is written as; [`ABSENT`] where it is written otherwise.
pub open spec fn plain_count(text: Seq<char>) -> i64 {
    match parsed_i64(text) {
        Some(n) => n,
        None => ABSENT,
    }
}

/// Millicores of a quantity that counts whole cores; [`ABSENT`] where there is none.
pub open spec fn cores_as_millis(quantity: Option<String>) -> i64 {
    match quantity {
        Some(q) => saturate_i64(plain_count(q@) * CPU_MULTIPLIER),
        None => ABSENT,
    }
}

/// Bytes of a memory quantity; [`ABSENT`] where there is none.
pub open spec fn memory_or_absent(quantity: Option<String>) -> i64 {
    match quantity {
        Some(q) => memory_quantity_bytes(q@),
        None => ABSENT,
    }
}

/// The integer that a quantity is written as; [`ABSENT`] where there is none.
pub open spec fn count_or_absent(quantity: Option<String>) -> i64 {
    match quantity {
        Some(q) => plain_count(q@),
        None => ABSENT,
    }
}

/// One node, as it is written out.
pub struct NodeStats {
    pub resource: String,
    pub type_: String,
    pub age: i64,
    pub container_runtime_version: String,
    pub containers_init: i32,
    pub containers_ready: i32,
    pub containers_running: i32,
    pub containers_terminated: i32,
    pub containers_total: i32,
    pub containers_waiting: i32,
    pub cpu_allocatable: i64,
    pub cpu_capacity: i64,
    pub cpu_usage: i32,
    pub created: i64,
    pub ip_external: String,
    pub ip: String,
    pub kernel_version: String,
    pub kubelet_version: String,
    pub memory_allocatable: i64,
    pub memory_capacity: i64,
    pub pods_allocatable: i64,
    pub pods_capacity: i64,
    pub memory_usage: i64,
    pub node: String,
    pub os_image: String,
    pub pods_failed: i32,
    pub pods_pending: i32,
    pub pods_running: i32,
    pub pods_succeeded: i32,
    pub pods_total: i32,
    pub pods_unknown: i32,
    pub ready_heartbeat_age: i64,
    pub ready_heartbeat_time: i64,
    pub ready_message: String,
    pub ready_status: String,
    pub ready_transition_age: i64,
    pub ready_transition_time: i64,
    pub ready: Option<bool>,
    pub unschedulable: Option<bool>,
}

/// The mathematical content of a [`NodeStats`].
pub ghost struct NodeStatsView {
    pub resource: Seq<char>,
    pub type_: Seq<char>,
    pub age: i64,
    pub created: i64,
    pub node: Seq<char>,
    pub container_runtime_version: Seq<char>,
    pub kernel_version: Seq<char>,
    pub kubelet_version: Seq<char>,
    pub os_image: Seq<char>,
    pub ip: Seq<char>,
    pub ip_external: Seq<char>,
    pub cpu_allocatable: i64,
    pub cpu_capacity: i64,
    pub cpu_usage: i32,
    pub memory_allocatable: i64,
    pub memory_capacity: i64,
    pub memory_usage: i64,
    pub pods_allocatable: i64,
    pub pods_capacity: i64,
    pub containers: NodeContainerStats,
    pub pods: NodePodStats,
    pub readiness: ReadinessView,
    pub unschedulable: Option<bool>,
}

impl View for NodeStats {
    type V = NodeStatsView;

    open spec fn view(&self) -> NodeStatsView {
        NodeStatsView {
            resource: self.resource@,
            type_: self.type_@,
            age: self.age,
            created: self.created,
            node: self.node@,
            container_runtime_version: self.container_runtime_version@,
            kernel_version: self.kernel_version@,
            kubelet_version: self.kubelet_version@,
            os_image: self.os_image@,
            ip: self.ip@,
            ip_external: self.ip_external@,
            cpu_allocatable: self.cpu_allocatable,
            cpu_capacity: self.cpu_capacity,
            cpu_usage: self.cpu_usage,
            memory_allocatable: self.memory_allocatable,
            memory_capacity: self.memory_capacity,
            memory_usage: self.memory_usage,
            pods_allocatable: self.pods_allocatable,
            pods_capacity: self.pods_capacity,
            containers: NodeContainerStats {
                containers_waiting: self.containers_waiting,
                containers_total: self.containers_total,
                containers_terminated: self.containers_terminated,
                containers_running: self.containers_running,
                containers_ready: self.containers_ready,
                containers_init: self.containers_init,
            },
            pods: NodePodStats {
                pods_failed: self.pods_failed,
                pods_pending: self.pods_pending,
                pods_running: self.pods_running,
                pods_succeeded: self.pods_succeeded,
                pods_unknown: self.pods_unknown,
                pods_total: self.pods_total,
            },
            readiness: ReadinessView {
                heartbeat_age: self.ready_heartbeat_age,
                heartbeat_time: self.ready_heartbeat_time,
                message: self.ready_message@,
                status: self.ready_status@,
                transition_age: self.ready_transition_age,
                transition_time: self.ready_transition_time,
                ready: self.ready,
            },
            unschedulable: self.unschedulable,
        }
    }
}

/// The record of node `n` at time `now`, given the counts of its pods and
/// containers and its usage as the metrics server wrote it.
///
/// A part of the node that is missing leaves its fields at their defaults: the
/// empty text, zero for ages and times, [`ABSENT`] for allocatable and capacity, `None`
/// for `ready` and `unschedulable`. Creation and condition times are in whole
/// seconds, ages in milliseconds.
pub open spec fn node_stats_of(
    n: Node,
    n_pods: NodePodStats,
    n_containers: NodeContainerStats,
    raw_cpu_usage: Seq<char>,
    raw_memory_usage: Seq<char>,
    now: i64,
) -> NodeStatsView {
    let info = match n.status {
        Some(status) => status.node_info,
        None => None,
    };
    let allocatable = match n.status {
        Some(status) => status.allocatable,
        None => None,
    };
    let capacity = match n.status {
        Some(status) => status.capacity,
        None => None,
    };
    let addresses = match n.status {
        Some(status) => match status.addresses {
            Some(list) => list@,
            None => Seq::empty(),
        },
        None => Seq::empty(),
    };
    let conditions = match n.status {
        Some(status) => match status.conditions {
            Some(list) => list@,
            None => Seq::empty(),
        },
        None => Seq::empty(),
    };
    NodeStatsView {
        resource: "node"@,
        type_: "metric"@,
        age: match n.metadata.creation_timestamp {
            Some(created) => elapsed(now, created),
            None => 0,
        },
        created: match n.metadata.creation_timestamp {
            Some(created) => seconds_of(created),
            None => 0,
        },
        node: text_or_empty(n.metadata.name),
        container_runtime_version: match info {
            Some(i) => i.container_runtime_version@,
            None => Seq::empty(),
        },
        kernel_version: match info {
            Some(i) => i.kernel_version@,
            None => Seq::empty(),
        },
        kubelet_version: match info {
            Some(i) => i.kubelet_version@,
            None => Seq::empty(),
        },
        os_image: match info {
            Some(i) => i.os_image@,
            None => Seq::empty(),
        },
        ip: address_of(addresses, "internalip"@),
        ip_external: address_of(addresses, "externalip"@),
        cpu_allocatable: match allocatable {
            Some(list) => cores_as_millis(list.cpu),
            None => ABSENT,
        },
        cpu_capacity: match capacity {
            Some(list) => cores_as_millis(list.cpu),
            None => ABSENT,
        },
        cpu_usage: cpu_quantity_millis(raw_cpu_usage),
        memory_allocatable: match allocatable {
            Some(list) => memory_or_absent(list.memory),
            None => ABSENT,
        },
        memory_capacity: match capacity {
            Some(list) => memory_or_absent(list.memory),
            None => ABSENT,
        },
        memory_usage: memory_quantity_bytes(raw_memory_usage),
        pods_allocatable: match allocatable {
            Some(list) => count_or_absent(list.pods),
            None => ABSENT,
        },
        pods_capacity: match capacity {
            Some(list) => count_or_absent(list.pods),
            None => ABSENT,
        },
        containers: n_containers,
        pods: n_pods,
        readiness: readiness_of(conditions, now),
        unschedulable: match n.spec {
            Some(spec) => spec.unschedulable,
            None => None,
        },
    }
}

/// The integer that a quantity is written as; [`ABSENT`] where it is written otherwise.
fn plain_count_of(text: &str) -> (count: i64)
    ensures
        count == plain_count(text@),
{
    match parse_i64(text) {
        Some(n) => n,
        None => ABSENT,
    }
}

/// Millicores of a quantity that counts whole cores; [`ABSENT`] where there is none.
fn cores_to_millis(quantity: &Option<String>) -> (millis: i64)
    ensures
        millis == cores_as_millis(*quantity),
{
    match quantity {
        Some(q) => {
            let cores = plain_count_of(q.as_str());
            if cores > 9_223_372_036_854_775 {
                i64::MAX
            } else if cores < -9_223_372_036_854_775 {
                i64::MIN
            } else {
                cores * CPU_MULTIPLIER
            }
        },
        None => ABSENT,
    }
}

/// Bytes of a memory quantity; [`ABSENT`] where there is none.
fn memory_or_minus_one(quantity: &Option<String>) -> (bytes: i64)
    ensures
        bytes == memory_or_absent(*quantity),
{
    match quantity {
        Some(q) => convert_memory_usage_to_bytes(q.as_str()),
        None => ABSENT,
    }
}

/// The integer that a quantity is written as; [`ABSENT`] where there is none.
fn count_or_minus_one(quantity: &Option<String>) -> (count: i64)
    ensures
        count == count_or_absent(*quantity),
{
    match quantity {
        Some(q) => plain_count_of(q.as_str()),
        None => ABSENT,
    }
}

/// The address of the last entry of `addresses` whose type is `kind`, in any case.
fn find_address(addresses: &Vec<NodeAddress>, kind: &str) -> (address: String)
    ensures
        address@ == address_of(addresses@, kind@),
{
    let mut address = String::new();
    let mut i: usize = 0;
    assert(addresses@.take(0) == Seq::<NodeAddress>::empty());
    while i < addresses.len()
        invariant
            i <= addresses.len(),
            address@ == address_of(addresses@.take(i as int), kind@),
        decreases addresses.len() - i,
    {
        assert(addresses@.take(i + 1).drop_last() == addresses@.take(i as int));
        if eq_ignore_ascii_case(addresses[i].type_.as_str(), kind) {
            address = addresses[i].address.clone();
        }
        i += 1;
    }
    assert(addresses@.take(i as int) == addresses@);
    address
}

/// Reads the `Ready` conditions of a node at time `now`.
pub fn read_readiness(conditions: &Vec<NodeCondition>, now: i64) -> (readiness: Readiness)
    ensures
        readiness@ == readiness_of(conditions@, now),
{
    let mut readiness = Readiness {
        heartbeat_age: 0,
        heartbeat_time: 0,
        message: String::new(),
        status: String::new(),
        transition_age: 0,
        transition_time: 0,
        ready: None,
    };
    let mut i: usize = 0;
    assert(conditions@.take(0) == Seq::<NodeCondition>::empty());
    while i < conditions.len()
        invariant
            i <= conditions.len(),
            readiness@ == readiness_of(conditions@.take(i as int), now),
        decreases conditions.len() - i,
    {
        assert(conditions@.take(i + 1).drop_last() == conditions@.take(i as int));
        let condition = &conditions[i];
        if eq_ignore_ascii_case(condition.type_.as_str(), "ready") {
            match condition.last_heartbeat_time {
                Some(heartbeat) => {
                    readiness.heartbeat_age = elapsed_millis(now, heartbeat);
                    readiness.heartbeat_time = whole_seconds(heartbeat);
                },
                None => {},
            }
            match condition.last_transition_time {
                Some(transition) => {
                    readiness.transition_age = elapsed_millis(now, transition);
                    readiness.transition_time = whole_seconds(transition);
                },
                None => {},
            }
            readiness.message = clone_or_empty(&condition.message);
            readiness.status = condition.status.clone();
            readiness.ready = Some(eq_ignore_ascii_case(condition.status.as_str(), "true"));
        }
        i += 1;
    }
    assert(conditions@.take(i as int) == conditions@);
    readiness
}

impl NodeStats {
    /// Starts the record of node `n` from the counts of its pods and containers
    /// and its usage as the metrics server wrote it.
    pub fn builder<'a>(
        n: &'a Node,
        n_pods: &'a NodePodStats,
        n_containers: &'a NodeContainerStats,
        raw_cpu_usage: &'a str,
        raw_memory_usage: &'a str,
    ) -> (builder: NodeStatsBuilder<'a>)
        ensures
            builder.n == n,
            builder.n_pods == n_pods,
            builder.n_containers == n_containers,
            builder.raw_cpu_usage == raw_cpu_usage,
            builder.raw_memory_usage == raw_memory_usage,
    {
        NodeStatsBuilder { n, n_pods, n_containers, raw_cpu_usage, raw_memory_usage }
    }
}

/// What a node's record is built from.
pub struct NodeStatsBuilder<'a> {
    pub n: &'a Node,
    pub n_pods: &'a NodePodStats,
    pub n_containers: &'a NodeContainerStats,
    pub raw_cpu_usage: &'a str,
    pub raw_memory_usage: &'a str,
}

impl<'a> NodeStatsBuilder<'a> {
    /// Starts the record of node `n` from the counts of its pods and containers
    /// and its usage as the metrics server wrote it.
    pub fn new(
        n: &'a Node,
        n_pods: &'a NodePodStats,
        n_containers: &'a NodeContainerStats,
        raw_cpu_usage: &'a str,
        raw_memory_usage: &'a str,
    ) -> (builder: NodeStatsBuilder<'a>)
        ensures
            builder.n == n,
            builder.n_pods == n_pods,
            builder.n_containers == n_containers,
            builder.raw_cpu_usage == raw_cpu_usage,
            builder.raw_memory_usage == raw_memory_usage,
    {
        NodeStatsBuilder { n, n_pods, n_containers, raw_cpu_usage, raw_memory_usage }
    }

    /// The record that this builder stands for at time `now`.
    pub open spec fn record_at(self, now: i64) -> NodeStatsView {
        node_stats_of(
            *self.n,
            *self.n_pods,
            *self.n_containers,
            self.raw_cpu_usage@,
            self.raw_memory_usage@,
            now,
        )
    }

    /// Builds the record as of the time `now`, in milliseconds since the epoch.
    pub fn build_at(self, now: i64) -> (stats: NodeStats)
        ensures
            stats@ == self.record_at(now),
    {
        let memory_usage = convert_memory_usage_to_bytes(self.raw_memory_usage);
        let cpu_usage = convert_cpu_usage_to_milli(self.raw_cpu_usage);

        let mut container_runtime_version = String::new();
        let mut ip = String::new();
        let mut ip_external = String::new();
        let mut kernel_version = String::new();
        let mut kubelet_version = String::new();
        let mut os_image = String::new();

        let mut cpu_allocatable: i64 = ABSENT;
        let mut cpu_capacity: i64 = ABSENT;
        let mut memory_allocatable: i64 = ABSENT;
        let mut memory_capacity: i64 = ABSENT;
        let mut pods_allocatable: i64 = ABSENT;
        let mut pods_capacity: i64 = ABSENT;
        let mut age: i64 = 0;
        let mut created: i64 = 0;
        let mut unschedulable: Option<bool> = None;
        let mut readiness = Readiness {
            heartbeat_age: 0,
            heartbeat_time: 0,
            message: String::new(),
            status: String::new(),
            transition_age: 0,
            transition_time: 0,
            ready: None,
        };

        match &self.n.spec {
            Some(spec) => {
                unschedulable = spec.unschedulable;
            },
            None => {},
        }

        match &self.n.status {
            Some(status) => {
                match &status.node_info {
                    Some(info) => {
                        container_runtime_version = info.container_runtime_version.clone();
                        kernel_version = info.kernel_version.clone();
                        kubelet_version = info.kubelet_version.clone();
                        os_image = info.os_image.clone();
                    },
                    None => {},
                }
                match &status.allocatable {
                    Some(allocatable) => {
                        cpu_allocatable = cores_to_millis(&allocatable.cpu);
                        memory_allocatable = memory_or_minus_one(&allocatable.memory);
                        pods_allocatable = count_or_minus_one(&allocatable.pods);
                    },
                    None => {},
                }
                match &status.capacity {
                    Some(capacity) => {
                        cpu_capacity = cores_to_millis(&capacity.cpu);
                        memory_capacity = memory_or_minus_one(&capacity.memory);
                        pods_capacity = count_or_minus_one(&capacity.pods);
                    },
                    None => {},
                }
                match &status.addresses {
                    Some(addresses) => {
                        ip = find_address(addresses, "internalip");
                        ip_external = find_address(addresses, "externalip");
                    },
                    None => {},
                }
                match &status.conditions {
                    Some(conditions) => {
                        readiness = read_readiness(conditions, now);
                    },
                    None => {},
                }
            },
            None => {},
        }

        match self.n.metadata.creation_timestamp {
            Some(node_created) => {
                age = elapsed_millis(now, node_created);
                created = whole_seconds(node_created);
            },
            None => {},
        }
        let node = clone_or_empty(&self.n.metadata.name);

        NodeStats {
            age,
            container_runtime_version,
            containers_init: self.n_containers.containers_init,
            containers_ready: self.n_containers.containers_ready,
            containers_running: self.n_containers.containers_running,
            containers_terminated: self.n_containers.containers_terminated,
            containers_total: self.n_containers.containers_total,
            containers_waiting: self.n_containers.containers_waiting,
            cpu_allocatable,
            cpu_capacity,
            cpu_usage,
            created,
            ip_external,
            ip,
            kernel_version,
            kubelet_version,
            memory_allocatable,
            memory_capacity,
            memory_usage,
            node,
            os_image,
            pods_failed: self.n_pods.pods_failed,
            pods_pending: self.n_pods.pods_pending,
            pods_running: self.n_pods.pods_running,
            pods_succeeded: self.n_pods.pods_succeeded,
            pods_total: self.n_pods.pods_total,
            pods_unknown: self.n_pods.pods_unknown,
            ready_heartbeat_age: readiness.heartbeat_age,
            ready_heartbeat_time: readiness.heartbeat_time,
            ready_message: readiness.message,
            ready_status: readiness.status,
            ready_transition_age: readiness.transition_age,
            ready_transition_time: readiness.transition_time,
            ready: readiness.ready,
            unschedulable,
            pods_allocatable,
            pods_capacity,
            resource: "node".to_owned(),
            type_: "metric".to_owned(),
        }
    }

    /// Builds the record as of the time that the clock shows.
    pub fn build(self) -> (stats: NodeStats)
        ensures
            exists|now: i64| stats@ == self.record_at(now),
    {
        let now = now_millis();
        let stats = self.build_at(now);
        assert(stats@ == self.record_at(now));
        stats
    }
}

} // verus!
