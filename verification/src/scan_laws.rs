//! What holds of every scan: how the rollups of a controller count its pods
//! and their containers whatever the order of the pods, that a container
//! without a record leaves the others alone, that a node without pods is
//! still written out, and that every record finds the rollup of its controller.

use crate::kube_stats::controller_stats::{bump, ControllerStats};
use crate::kube_stats::node_stats::{NodeContainerStats, NodePodStats};
use crate::kube_stats::pod_stats::{pod_stats_of, PodStatsView};
use crate::metrics_stats_aggregator::{
    container_record, controller_at, controller_key, cycle_pod_records, cycle_rollups,
    is_reported, is_scanned, no_rollups, node_record, node_records, pod_is_ready, pods_at,
    scan_containers, scan_pod, scan_pods, status_named, statuses_of, usage_with_pods, with_pod,
    with_statuses, RollupsView,
};
use crate::objects::PodMetrics;
use crate::objects::{list_or_empty, Container, ContainerStatus, Node, Pod, Usage};
use vstd::prelude::*;

verus! {

/// How many items of `s` meet `pred`.
pub open spec fn count_where<A>(s: Seq<A>, pred: spec_fn(A) -> bool) -> nat
    decreases s.len(),
{
    if s.len() == 0 {
        0
    } else {
        count_where(s.drop_last(), pred) + if pred(s.last()) {
            1nat
        } else {
            0nat
        }
    }
}

/// Taking one item out lowers the count by one where the item met `pred`.
pub proof fn lemma_count_where_remove<A>(s: Seq<A>, pred: spec_fn(A) -> bool, i: int)
    requires
        0 <= i < s.len(),
    ensures
        count_where(s, pred) == count_where(s.remove(i), pred) + if pred(s[i]) {
            1nat
        } else {
            0nat
        },
    decreases s.len(),
{
    if i == s.len() - 1 {
        assert(s.remove(i) == s.drop_last());
    } else {
        lemma_count_where_remove(s.drop_last(), pred, i);
        assert(s.remove(i).drop_last() == s.drop_last().remove(i));
        assert(s.remove(i).last() == s.last());
    }
}

/// Two sequences that hold the same items, in whatever order, give the same count.
pub proof fn lemma_count_where_ignores_order<A>(a: Seq<A>, b: Seq<A>, pred: spec_fn(A) -> bool)
    requires
        a.to_multiset() == b.to_multiset(),
    ensures
        count_where(a, pred) == count_where(b, pred),
    decreases a.len(),
{
    a.to_multiset_ensures();
    b.to_multiset_ensures();
    if a.len() == 0 {
        assert(b.len() == 0);
    } else {
        let x = a.last();
        assert(a.contains(x)) by {
            assert(a[a.len() - 1] == x);
        }
        assert(b.to_multiset().count(x) > 0);
        assert(b.contains(x));
        let j = choose|j: int| 0 <= j < b.len() && b[j] == x;
        assert(a.remove(a.len() - 1) == a.drop_last());
        assert(a.drop_last().to_multiset() == b.remove(j).to_multiset());
        lemma_count_where_ignores_order(a.drop_last(), b.remove(j), pred);
        lemma_count_where_remove(b, pred, j);
    }
}

/// Whether a pod is counted for the controller kept under `key`.
pub open spec fn counts_for(pod: Pod, key: Seq<char>, now: i64) -> bool {
    is_scanned(pod) && controller_key(pod_stats_of(pod, now)) == key
}

/// Whether a pod is counted as a ready pod of the controller kept under `key`.
pub open spec fn counts_as_ready_for(pod: Pod, key: Seq<char>, now: i64) -> bool {
    counts_for(pod, key, now) && pod_is_ready(pod.status->0.conditions->0@)
}

/// The test for the pods of the controller kept under `key`.
pub open spec fn is_pod_of(key: Seq<char>, now: i64) -> spec_fn(Pod) -> bool {
    |pod: Pod| counts_for(pod, key, now)
}

/// The test for the ready pods of the controller kept under `key`.
pub open spec fn is_ready_pod_of(key: Seq<char>, now: i64) -> spec_fn(Pod) -> bool {
    |pod: Pod| counts_as_ready_for(pod, key, now)
}

/// A counter that stood at `start` after `n` more steps: it stops at `i32::MAX`.
pub open spec fn raised(start: i32, n: nat) -> i32 {
    if start + n > i32::MAX {
        i32::MAX
    } else {
        (start + n) as i32
    }
}

/// Counting container statuses leaves the counts of pods as they are.
pub proof fn lemma_with_statuses_keeps_pods(stats: ControllerStats, statuses: Seq<ContainerStatus>)
    ensures
        with_statuses(stats, statuses).pods_total == stats.pods_total,
        with_statuses(stats, statuses).pods_ready == stats.pods_ready,
    decreases statuses.len(),
{
    if statuses.len() > 0 {
        lemma_with_statuses_keeps_pods(stats, statuses.drop_last());
    }
}

/// Scanning containers changes neither the rollups by controller nor the
/// counts of pods by node.
pub proof fn lemma_scan_containers_keeps_pod_counts(
    before: RollupsView,
    containers: Seq<Container>,
    init: bool,
    pod: PodStatsView,
    statuses: Seq<ContainerStatus>,
    usage: Map<Seq<char>, Usage>,
    now: i64,
)
    ensures
        scan_containers(before, containers, init, pod, statuses, usage, now).controllers
            == before.controllers,
        scan_containers(before, containers, init, pod, statuses, usage, now).node_pods
            == before.node_pods,
        forall|node: Seq<char>|
            node != pod.node ==> (#[trigger] scan_containers(
                before,
                containers,
                init,
                pod,
                statuses,
                usage,
                now,
            ).node_containers.contains_key(node) <==> before.node_containers.contains_key(node)),
    decreases containers.len(),
{
    if containers.len() > 0 {
        lemma_scan_containers_keeps_pod_counts(
            before,
            containers.drop_last(),
            init,
            pod,
            statuses,
            usage,
            now,
        );
    }
}

/// The rollups by controller after one pod has been scanned.
pub proof fn lemma_scan_pod_controllers(
    before: RollupsView,
    pod: Pod,
    usage: Map<Seq<char>, Usage>,
    now: i64,
)
    ensures
        scan_pod(before, pod, usage, now).controllers == if is_scanned(pod) {
            before.controllers.insert(
                controller_key(pod_stats_of(pod, now)),
                with_pod(
                    controller_at(before.controllers, controller_key(pod_stats_of(pod, now))),
                    pod_is_ready(pod.status->0.conditions->0@),
                    statuses_of(pod.status->0),
                ),
            )
        } else {
            before.controllers
        },
{
    if is_scanned(pod) {
        let stats = pod_stats_of(pod, now);
        let statuses = statuses_of(pod.status->0);
        let key = controller_key(stats);
        let counted = RollupsView {
            node_pods: before.node_pods.insert(
                stats.node,
                pods_at(before.node_pods, stats.node).with_pod(stats.phase),
            ),
            controllers: before.controllers.insert(
                key,
                with_pod(
                    controller_at(before.controllers, key),
                    pod_is_ready(pod.status->0.conditions->0@),
                    statuses,
                ),
            ),
            ..before
        };
        let regular = scan_containers(
            counted,
            pod.spec->0.containers@,
            false,
            stats,
            statuses,
            usage,
            now,
        );
        lemma_scan_containers_keeps_pod_counts(
            counted,
            pod.spec->0.containers@,
            false,
            stats,
            statuses,
            usage,
            now,
        );
        lemma_scan_containers_keeps_pod_counts(
            regular,
            list_or_empty(pod.spec->0.init_containers),
            true,
            stats,
            statuses,
            usage,
            now,
        );
    }
}

/// After a scan, the rollup of a controller has counted each scanned pod of
/// the controller once as a pod, and each of them with a condition that says
/// it is ready once as a ready pod; and a rollup is kept for the controller
/// where one was kept before or one of the pods is its own.
pub proof fn lemma_controller_counts_its_pods(
    before: RollupsView,
    pods: Seq<Pod>,
    usage: Map<Seq<char>, Usage>,
    now: i64,
    key: Seq<char>,
)
    ensures
        controller_at(scan_pods(before, pods, usage, now).controllers, key).pods_total == raised(
            controller_at(before.controllers, key).pods_total,
            count_where(pods, is_pod_of(key, now)),
        ),
        controller_at(scan_pods(before, pods, usage, now).controllers, key).pods_ready == raised(
            controller_at(before.controllers, key).pods_ready,
            count_where(pods, is_ready_pod_of(key, now)),
        ),
        scan_pods(before, pods, usage, now).controllers.contains_key(key) <==> (
        before.controllers.contains_key(key) || count_where(pods, is_pod_of(key, now)) > 0),
    decreases pods.len(),
{
    if pods.len() > 0 {
        let earlier = scan_pods(before, pods.drop_last(), usage, now);
        let pod = pods.last();
        lemma_controller_counts_its_pods(before, pods.drop_last(), usage, now, key);
        lemma_scan_pod_controllers(earlier, pod, usage, now);
        if is_scanned(pod) {
            let own = controller_key(pod_stats_of(pod, now));
            lemma_with_statuses_keeps_pods(
                ControllerStats {
                    pods_ready: if pod_is_ready(pod.status->0.conditions->0@) {
                        bump(controller_at(earlier.controllers, own).pods_ready)
                    } else {
                        controller_at(earlier.controllers, own).pods_ready
                    },
                    pods_total: bump(controller_at(earlier.controllers, own).pods_total),
                    ..controller_at(earlier.controllers, own)
                },
                statuses_of(pod.status->0),
            );
        }
    }
}

/// In one cycle, which starts from nothing, the rollup of a controller shows
/// as many pods as were scanned for it and as many ready pods as had a
/// condition that says so, each stopping at `i32::MAX`.
pub proof fn lemma_cycle_counts_pods_of_controller(
    pods: Seq<Pod>,
    usage: Map<Seq<char>, Usage>,
    now: i64,
    key: Seq<char>,
)
    ensures
        controller_at(scan_pods(no_rollups(), pods, usage, now).controllers, key).pods_total
            == raised(0, count_where(pods, is_pod_of(key, now))),
        controller_at(scan_pods(no_rollups(), pods, usage, now).controllers, key).pods_ready
            == raised(0, count_where(pods, is_ready_pod_of(key, now))),
{
    lemma_controller_counts_its_pods(no_rollups(), pods, usage, now, key);
}

/// The counts of pods and of ready pods in the rollup of a controller do not
/// depend on the order in which the pods are scanned.
pub proof fn lemma_pod_counts_ignore_scan_order(
    before: RollupsView,
    first: Seq<Pod>,
    second: Seq<Pod>,
    usage: Map<Seq<char>, Usage>,
    now: i64,
    key: Seq<char>,
)
    requires
        first.to_multiset() == second.to_multiset(),
    ensures
        controller_at(scan_pods(before, first, usage, now).controllers, key).pods_total
            == controller_at(scan_pods(before, second, usage, now).controllers, key).pods_total,
        controller_at(scan_pods(before, first, usage, now).controllers, key).pods_ready
            == controller_at(scan_pods(before, second, usage, now).controllers, key).pods_ready,
{
    lemma_controller_counts_its_pods(before, first, usage, now, key);
    lemma_controller_counts_its_pods(before, second, usage, now, key);
    lemma_count_where_ignores_order(first, second, is_pod_of(key, now));
    lemma_count_where_ignores_order(first, second, is_ready_pod_of(key, now));
}

/// A declared container that lacks a status or usage under its name has no
/// record, and the scan of its pod's containers gathers what it would gather
/// without that container.
pub proof fn lemma_container_without_record_changes_nothing(
    before: RollupsView,
    containers: Seq<Container>,
    i: int,
    init: bool,
    pod: PodStatsView,
    statuses: Seq<ContainerStatus>,
    usage: Map<Seq<char>, Usage>,
    now: i64,
)
    requires
        0 <= i < containers.len(),
        status_named(statuses, containers[i].name@) is None || !usage.contains_key(
            containers[i].name@,
        ),
    ensures
        container_record(containers[i], statuses, usage, now) is None,
        scan_containers(before, containers, init, pod, statuses, usage, now) == scan_containers(
            before,
            containers.remove(i),
            init,
            pod,
            statuses,
            usage,
            now,
        ),
    decreases containers.len(),
{
    if i == containers.len() - 1 {
        assert(containers.remove(i) == containers.drop_last());
    } else {
        lemma_container_without_record_changes_nothing(
            before,
            containers.drop_last(),
            i,
            init,
            pod,
            statuses,
            usage,
            now,
        );
        assert(containers.remove(i).drop_last() == containers.drop_last().remove(i));
        assert(containers.remove(i).last() == containers.last());
    }
}

/// Whether no scanned pod of `pods` runs on the node called `name`.
pub open spec fn no_pod_on(pods: Seq<Pod>, name: Seq<char>, now: i64) -> bool {
    forall|i: int|
        0 <= i < pods.len() && is_scanned(#[trigger] pods[i]) ==> pod_stats_of(pods[i], now).node
            != name
}

/// A scan keeps no counts for a node on which none of the scanned pods runs,
/// unless it began with some.
pub proof fn lemma_scan_leaves_other_nodes_alone(
    before: RollupsView,
    pods: Seq<Pod>,
    usage: Map<Seq<char>, Usage>,
    now: i64,
    name: Seq<char>,
)
    requires
        no_pod_on(pods, name, now),
    ensures
        scan_pods(before, pods, usage, now).node_pods.contains_key(name)
            <==> before.node_pods.contains_key(name),
        scan_pods(before, pods, usage, now).node_containers.contains_key(name)
            <==> before.node_containers.contains_key(name),
    decreases pods.len(),
{
    if pods.len() > 0 {
        let front = pods.drop_last();
        assert forall|i: int| 0 <= i < front.len() && is_scanned(#[trigger] front[i]) implies pod_stats_of(
            front[i],
            now,
        ).node != name by {
            assert(front[i] == pods[i]);
        }
        lemma_scan_leaves_other_nodes_alone(before, front, usage, now, name);
        let earlier = scan_pods(before, front, usage, now);
        let pod = pods.last();
        assert(pod == pods[pods.len() - 1]);
        if is_scanned(pod) {
            let stats = pod_stats_of(pod, now);
            let statuses = statuses_of(pod.status->0);
            let key = controller_key(stats);
            let counted = RollupsView {
                node_pods: earlier.node_pods.insert(
                    stats.node,
                    pods_at(earlier.node_pods, stats.node).with_pod(stats.phase),
                ),
                controllers: earlier.controllers.insert(
                    key,
                    with_pod(
                        controller_at(earlier.controllers, key),
                        pod_is_ready(pod.status->0.conditions->0@),
                        statuses,
                    ),
                ),
                ..earlier
            };
            let regular = scan_containers(
                counted,
                pod.spec->0.containers@,
                false,
                stats,
                statuses,
                usage,
                now,
            );
            lemma_scan_containers_keeps_pod_counts(
                counted,
                pod.spec->0.containers@,
                false,
                stats,
                statuses,
                usage,
                now,
            );
            lemma_scan_containers_keeps_pod_counts(
                regular,
                list_or_empty(pod.spec->0.init_containers),
                true,
                stats,
                statuses,
                usage,
                now,
            );
        }
    }
}

/// A node with a spec, a status, a name and a usage entry is written out even
/// where no scanned pod of the cycle runs on it, and all its counts of pods
/// and containers are then zero.
pub proof fn lemma_node_without_pods_is_written_with_zero_counts(
    pods: Seq<Pod>,
    pod_usage: Map<Seq<char>, Usage>,
    nodes: Seq<Node>,
    node: Node,
    node_usage: Map<Seq<char>, Usage>,
    now: i64,
)
    requires
        is_reported(node, node_usage),
        no_pod_on(pods, node.metadata.name->0@, now),
    ensures
        ({
            let rollups = scan_pods(no_rollups(), pods, pod_usage, now);
            let record = node_record(node, node_usage, rollups, now);
            &&& node_records(nodes.push(node), node_usage, rollups, now) == node_records(
                nodes,
                node_usage,
                rollups,
                now,
            ).push(record)
            &&& record.pods == NodePodStats::zero()
            &&& record.containers == NodeContainerStats::zero()
        }),
{
    lemma_scan_leaves_other_nodes_alone(
        no_rollups(),
        pods,
        pod_usage,
        now,
        node.metadata.name->0@,
    );
    assert(nodes.push(node).drop_last() == nodes);
}

/// Whether a rollup is kept for the controller of each record, and counts of
/// pods and of containers for the node of each record.
pub open spec fn records_have_rollups(rollups: RollupsView) -> bool {
    forall|i: int|
        0 <= i < rollups.records.len() ==> {
            let pod = (#[trigger] rollups.records[i]).pod_stats;
            &&& rollups.controllers.contains_key(controller_key(pod))
            &&& rollups.node_pods.contains_key(pod.node)
            &&& rollups.node_containers.contains_key(pod.node)
        }
}

/// Scanning the containers of a pod that has been counted keeps a rollup for
/// every record.
pub proof fn lemma_scan_containers_keeps_rollups(
    before: RollupsView,
    containers: Seq<Container>,
    init: bool,
    pod: PodStatsView,
    statuses: Seq<ContainerStatus>,
    usage: Map<Seq<char>, Usage>,
    now: i64,
)
    requires
        records_have_rollups(before),
        before.controllers.contains_key(controller_key(pod)),
        before.node_pods.contains_key(pod.node),
    ensures
        records_have_rollups(scan_containers(before, containers, init, pod, statuses, usage, now)),
    decreases containers.len(),
{
    if containers.len() > 0 {
        let earlier = scan_containers(
            before,
            containers.drop_last(),
            init,
            pod,
            statuses,
            usage,
            now,
        );
        lemma_scan_containers_keeps_rollups(
            before,
            containers.drop_last(),
            init,
            pod,
            statuses,
            usage,
            now,
        );
        lemma_scan_containers_keeps_pod_counts(
            before,
            containers.drop_last(),
            init,
            pod,
            statuses,
            usage,
            now,
        );
        let after = scan_containers(before, containers, init, pod, statuses, usage, now);
        assert forall|i: int| 0 <= i < after.records.len() implies {
            let owner = (#[trigger] after.records[i]).pod_stats;
            &&& after.controllers.contains_key(controller_key(owner))
            &&& after.node_pods.contains_key(owner.node)
            &&& after.node_containers.contains_key(owner.node)
        } by {
            if i < earlier.records.len() {
                assert(after.records[i] == earlier.records[i]);
            }
        }
    }
}

/// After a scan that began with a rollup for every record, a rollup is kept
/// for the controller of every record, and counts for its node: the merge of
/// the rollups into the records finds one for each.
pub proof fn lemma_scan_keeps_rollups_for_records(
    before: RollupsView,
    pods: Seq<Pod>,
    usage: Map<Seq<char>, Usage>,
    now: i64,
)
    requires
        records_have_rollups(before),
    ensures
        records_have_rollups(scan_pods(before, pods, usage, now)),
    decreases pods.len(),
{
    if pods.len() > 0 {
        lemma_scan_keeps_rollups_for_records(before, pods.drop_last(), usage, now);
        let earlier = scan_pods(before, pods.drop_last(), usage, now);
        let pod = pods.last();
        if is_scanned(pod) {
            let stats = pod_stats_of(pod, now);
            let statuses = statuses_of(pod.status->0);
            let key = controller_key(stats);
            let counted = RollupsView {
                node_pods: earlier.node_pods.insert(
                    stats.node,
                    pods_at(earlier.node_pods, stats.node).with_pod(stats.phase),
                ),
                controllers: earlier.controllers.insert(
                    key,
                    with_pod(
                        controller_at(earlier.controllers, key),
                        pod_is_ready(pod.status->0.conditions->0@),
                        statuses,
                    ),
                ),
                ..earlier
            };
            assert(records_have_rollups(counted)) by {
                assert forall|i: int| 0 <= i < counted.records.len() implies {
                    let owner = (#[trigger] counted.records[i]).pod_stats;
                    &&& counted.controllers.contains_key(controller_key(owner))
                    &&& counted.node_pods.contains_key(owner.node)
                    &&& counted.node_containers.contains_key(owner.node)
                } by {
                    assert(counted.records[i] == earlier.records[i]);
                }
            }
            let regular = scan_containers(
                counted,
                pod.spec->0.containers@,
                false,
                stats,
                statuses,
                usage,
                now,
            );
            lemma_scan_containers_keeps_rollups(
                counted,
                pod.spec->0.containers@,
                false,
                stats,
                statuses,
                usage,
                now,
            );
            lemma_scan_containers_keeps_pod_counts(
                counted,
                pod.spec->0.containers@,
                false,
                stats,
                statuses,
                usage,
                now,
            );
            lemma_scan_containers_keeps_rollups(
                regular,
                list_or_empty(pod.spec->0.init_containers),
                true,
                stats,
                statuses,
                usage,
                now,
            );
        }
    }
}

/// Every pod record that a cycle writes out shows, for the controller of its
/// pod, as many pods as the cycle scanned for that controller and as many
/// ready pods as had a condition that says so, each stopping at `i32::MAX`.
pub proof fn lemma_cycle_records_show_pod_counts(
    pods: Seq<Pod>,
    pod_metrics: Seq<PodMetrics>,
    now: i64,
    i: int,
)
    requires
        0 <= i < cycle_pod_records(pods, pod_metrics, now).len(),
    ensures
        ({
            let record = cycle_pod_records(pods, pod_metrics, now)[i];
            let key = controller_key(record.pod_stats);
            &&& record.controller_stats.pods_total == raised(
                0,
                count_where(pods, is_pod_of(key, now)),
            )
            &&& record.controller_stats.pods_ready == raised(
                0,
                count_where(pods, is_ready_pod_of(key, now)),
            )
        }),
{
    let usage = usage_with_pods(Map::empty(), pod_metrics);
    let rollups = cycle_rollups(pods, pod_metrics, now);
    lemma_scan_keeps_rollups_for_records(no_rollups(), pods, usage, now);
    let key = controller_key(rollups.records[i].pod_stats);
    assert(rollups.controllers.contains_key(key));
    lemma_controller_counts_its_pods(no_rollups(), pods, usage, now, key);
}

/// The sum of `f` over the items of `s`.
pub open spec fn sum_of<A>(s: Seq<A>, f: spec_fn(A) -> nat) -> nat
    decreases s.len(),
{
    if s.len() == 0 {
        0
    } else {
        sum_of(s.drop_last(), f) + f(s.last())
    }
}

/// Taking one item out lowers the sum by what `f` gives for it.
pub proof fn lemma_sum_of_remove<A>(s: Seq<A>, f: spec_fn(A) -> nat, i: int)
    requires
        0 <= i < s.len(),
    ensures
        sum_of(s, f) == sum_of(s.remove(i), f) + f(s[i]),
    decreases s.len(),
{
    if i == s.len() - 1 {
        assert(s.remove(i) == s.drop_last());
    } else {
        lemma_sum_of_remove(s.drop_last(), f, i);
        assert(s.remove(i).drop_last() == s.drop_last().remove(i));
        assert(s.remove(i).last() == s.last());
    }
}

/// Two sequences that hold the same items, in whatever order, give the same sum.
pub proof fn lemma_sum_of_ignores_order<A>(a: Seq<A>, b: Seq<A>, f: spec_fn(A) -> nat)
    requires
        a.to_multiset() == b.to_multiset(),
    ensures
        sum_of(a, f) == sum_of(b, f),
    decreases a.len(),
{
    a.to_multiset_ensures();
    b.to_multiset_ensures();
    if a.len() == 0 {
        assert(b.len() == 0);
    } else {
        let x = a.last();
        assert(a.contains(x)) by {
            assert(a[a.len() - 1] == x);
        }
        assert(b.to_multiset().count(x) > 0);
        assert(b.contains(x));
        let j = choose|j: int| 0 <= j < b.len() && b[j] == x;
        assert(a.remove(a.len() - 1) == a.drop_last());
        assert(a.drop_last().to_multiset() == b.remove(j).to_multiset());
        lemma_sum_of_ignores_order(a.drop_last(), b.remove(j), f);
        lemma_sum_of_remove(b, f, j);
    }
}

/// The test for the container statuses that are ready.
pub open spec fn is_ready_status() -> spec_fn(ContainerStatus) -> bool {
    |status: ContainerStatus| status.ready
}

/// How many container statuses a pod brings to the controller kept under
/// `key`: all of its own where it is counted for that controller, else none.
pub open spec fn statuses_for(key: Seq<char>, now: i64) -> spec_fn(Pod) -> nat {
    |pod: Pod|
        if counts_for(pod, key, now) {
            statuses_of(pod.status->0).len()
        } else {
            0
        }
}

/// How many ready container statuses a pod brings to the controller kept
/// under `key`.
pub open spec fn ready_statuses_for(key: Seq<char>, now: i64) -> spec_fn(Pod) -> nat {
    |pod: Pod|
        if counts_for(pod, key, now) {
            count_where(statuses_of(pod.status->0), is_ready_status())
        } else {
            0
        }
}

/// Counting a list of container statuses raises the count of containers by
/// their number and the count of ready containers by the number of ready ones.
pub proof fn lemma_with_statuses_counts(stats: ControllerStats, statuses: Seq<ContainerStatus>)
    ensures
        with_statuses(stats, statuses).containers_total == raised(
            stats.containers_total,
            statuses.len(),
        ),
        with_statuses(stats, statuses).containers_ready == raised(
            stats.containers_ready,
            count_where(statuses, is_ready_status()),
        ),
    decreases statuses.len(),
{
    if statuses.len() > 0 {
        lemma_with_statuses_counts(stats, statuses.drop_last());
    }
}

/// After a scan, the rollup of a controller has counted every container
/// status of each scanned pod of the controller once as a container, and
/// every ready one once as a ready container.
pub proof fn lemma_controller_counts_its_containers(
    before: RollupsView,
    pods: Seq<Pod>,
    usage: Map<Seq<char>, Usage>,
    now: i64,
    key: Seq<char>,
)
    ensures
        controller_at(scan_pods(before, pods, usage, now).controllers, key).containers_total
            == raised(
            controller_at(before.controllers, key).containers_total,
            sum_of(pods, statuses_for(key, now)),
        ),
        controller_at(scan_pods(before, pods, usage, now).controllers, key).containers_ready
            == raised(
            controller_at(before.controllers, key).containers_ready,
            sum_of(pods, ready_statuses_for(key, now)),
        ),
    decreases pods.len(),
{
    if pods.len() > 0 {
        let earlier = scan_pods(before, pods.drop_last(), usage, now);
        let pod = pods.last();
        lemma_controller_counts_its_containers(before, pods.drop_last(), usage, now, key);
        lemma_scan_pod_controllers(earlier, pod, usage, now);
        if is_scanned(pod) {
            let own = controller_key(pod_stats_of(pod, now));
            lemma_with_statuses_counts(
                ControllerStats {
                    pods_ready: if pod_is_ready(pod.status->0.conditions->0@) {
                        bump(controller_at(earlier.controllers, own).pods_ready)
                    } else {
                        controller_at(earlier.controllers, own).pods_ready
                    },
                    pods_total: bump(controller_at(earlier.controllers, own).pods_total),
                    ..controller_at(earlier.controllers, own)
                },
                statuses_of(pod.status->0),
            );
        }
    }
}

/// The counts of containers and of ready containers in the rollup of a
/// controller do not depend on the order in which the pods are scanned.
pub proof fn lemma_container_counts_ignore_scan_order(
    before: RollupsView,
    first: Seq<Pod>,
    second: Seq<Pod>,
    usage: Map<Seq<char>, Usage>,
    now: i64,
    key: Seq<char>,
)
    requires
        first.to_multiset() == second.to_multiset(),
    ensures
        controller_at(scan_pods(before, first, usage, now).controllers, key).containers_total
            == controller_at(
            scan_pods(before, second, usage, now).controllers,
            key,
        ).containers_total,
        controller_at(scan_pods(before, first, usage, now).controllers, key).containers_ready
            == controller_at(
            scan_pods(before, second, usage, now).controllers,
            key,
        ).containers_ready,
{
    lemma_controller_counts_its_containers(before, first, usage, now, key);
    lemma_controller_counts_its_containers(before, second, usage, now, key);
    lemma_sum_of_ignores_order(first, second, statuses_for(key, now));
    lemma_sum_of_ignores_order(first, second, ready_statuses_for(key, now));
}

} // verus!
