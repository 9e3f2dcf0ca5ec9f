use k8s::clock::{elapsed_millis, whole_seconds};
use k8s::decimal::parse_i64;
use k8s::kube_stats::container_stats::{
    current_lifecycle, read_previous, split_image, ContainerStats, ContainerStatsBuilder,
    Lifecycle,
};
use k8s::kube_stats::controller_stats::{bumped, ControllerStats};
use k8s::kube_stats::extended_pod_stats::ExtendedPodStats;
use k8s::kube_stats::node_stats::{
    read_readiness, NodeContainerStats, NodePodStats, NodeStats, NodeStatsBuilder, ABSENT,
    CPU_MULTIPLIER,
};
use k8s::kube_stats::pod_stats::{get_controller_details, PodStats, PodStatsBuilder};
use k8s::objects::{
    Container, ContainerState, ContainerStateRunning, ContainerStateTerminated, ContainerStatus,
    Node, NodeAddress, NodeCondition, NodeSpec, NodeStatus, NodeSystemInfo, ObjectMeta,
    OwnerReference, Pod, PodSpec, PodStatus, ResourceList, ResourceRequirements,
};
use k8s::text::{chars_of, eq_ignore_ascii_case};

fn text(s: &str) -> Option<String> {
    Some(s.to_string())
}

fn owner(name: &str, kind: &str, controller: Option<bool>) -> OwnerReference {
    OwnerReference { name: name.to_string(), kind: kind.to_string(), controller }
}

fn running(started_at: Option<i64>) -> ContainerState {
    ContainerState {
        running: Some(ContainerStateRunning { started_at }),
        terminated: None,
        waiting: false,
    }
}

fn terminated(
    started_at: Option<i64>,
    finished_at: Option<i64>,
    reason: Option<&str>,
) -> ContainerState {
    ContainerState {
        running: None,
        terminated: Some(ContainerStateTerminated {
            started_at,
            finished_at,
            reason: reason.map(|r| r.to_string()),
        }),
        waiting: false,
    }
}

fn waiting() -> ContainerState {
    ContainerState { running: None, terminated: None, waiting: true }
}

fn status(last_state: Option<ContainerState>) -> ContainerStatus {
    ContainerStatus {
        name: "app".to_string(),
        ready: true,
        restart_count: 3,
        state: None,
        last_state,
    }
}

fn plain_container() -> Container {
    Container { name: "app".to_string(), image: text("nginx:1.25"), resources: None }
}

#[test]
fn controller_counters_step_by_one() {
    let mut stats = ControllerStats::new();
    assert_eq!(
        stats,
        ControllerStats { containers_ready: 0, containers_total: 0, pods_ready: 0, pods_total: 0 }
    );
    stats.inc_pods_total();
    stats.inc_pods_total();
    stats.inc_pods_ready();
    stats.inc_containers_total();
    stats.inc_containers_total();
    stats.inc_containers_total();
    stats.inc_containers_ready();
    assert_eq!(
        stats,
        ControllerStats { containers_ready: 1, containers_total: 3, pods_ready: 1, pods_total: 2 }
    );
}

#[test]
fn controller_build_starts_at_zero() {
    assert_eq!(
        ControllerStats::build(),
        ControllerStats { containers_ready: 0, containers_total: 0, pods_ready: 0, pods_total: 0 }
    );
    assert_eq!(ControllerStats::build(), ControllerStats::new());
}

#[test]
fn controller_counters_stop_at_the_largest_value() {
    let mut stats = ControllerStats {
        containers_ready: i32::MAX,
        containers_total: i32::MAX - 1,
        pods_ready: 7,
        pods_total: i32::MAX,
    };
    stats.inc_containers_ready();
    stats.inc_containers_total();
    stats.inc_containers_total();
    stats.inc_pods_total();
    assert_eq!(
        stats,
        ControllerStats {
            containers_ready: i32::MAX,
            containers_total: i32::MAX,
            pods_ready: 7,
            pods_total: i32::MAX
        }
    );
    assert_eq!(bumped(i32::MAX), i32::MAX);
    assert_eq!(bumped(-1), 0);
    assert_eq!(bumped(41), 42);
}

#[test]
fn controller_copy_takes_all_four_counts() {
    let source =
        ControllerStats { containers_ready: 1, containers_total: 2, pods_ready: 3, pods_total: 4 };
    let mut target = ControllerStats::new();
    target.copy_stats(&source);
    assert_eq!(target, source);
}

#[test]
fn node_pod_counts_by_phase() {
    let mut stats = NodePodStats::new();
    for phase in ["Failed", "PENDING", "running", "Running", "Succeeded", "Unknown", "", "Evicted"]
    {
        stats.inc(phase);
    }
    assert_eq!(
        stats,
        NodePodStats {
            pods_failed: 1,
            pods_pending: 1,
            pods_running: 2,
            pods_succeeded: 1,
            pods_unknown: 3,
            pods_total: 8
        }
    );
}

#[test]
fn node_pod_counts_stop_at_the_largest_value() {
    let mut stats = NodePodStats { pods_total: i32::MAX, ..NodePodStats::new() };
    stats.inc("Running");
    assert_eq!(stats.pods_total, i32::MAX);
    assert_eq!(stats.pods_running, 1);
}

#[test]
fn node_container_counts_by_state() {
    let mut stats = NodeContainerStats::new();
    stats.inc("Waiting", false, false);
    stats.inc("TERMINATED", true, false);
    stats.inc("running", true, false);
    stats.inc("Running", false, true);
    stats.inc("Paused", true, true);
    stats.inc("", true, false);
    assert_eq!(
        stats,
        NodeContainerStats {
            containers_waiting: 1,
            containers_total: 4,
            containers_terminated: 1,
            containers_running: 2,
            containers_ready: 1,
            containers_init: 2
        }
    );
}

#[test]
fn first_controlling_owner_is_taken() {
    let owners = Some(vec![
        owner("plain", "Node", None),
        owner("not", "Job", Some(false)),
        owner("web", "ReplicaSet", Some(true)),
        owner("later", "DaemonSet", Some(true)),
    ]);
    assert_eq!(get_controller_details(&owners), ("web".to_string(), "ReplicaSet".to_string()));
    assert_eq!(get_controller_details(&None), (String::new(), String::new()));
    assert_eq!(get_controller_details(&Some(vec![])), (String::new(), String::new()));
    assert_eq!(
        get_controller_details(&Some(vec![owner("x", "Job", Some(false))])),
        (String::new(), String::new())
    );
}

#[test]
fn pod_record_of_a_full_pod() {
    let pod = Pod {
        metadata: ObjectMeta {
            name: text("web-1"),
            namespace: text("shop"),
            owner_references: Some(vec![owner("web", "ReplicaSet", Some(true))]),
            creation_timestamp: Some(1),
        },
        spec: Some(PodSpec {
            priority: Some(0),
            priority_class_name: text("high"),
            node_name: text("node-a"),
            containers: vec![],
            init_containers: None,
        }),
        status: Some(PodStatus {
            start_time: Some(10_000),
            pod_ip: text("10.0.0.7"),
            phase: text("Running"),
            qos_class: text("Burstable"),
            conditions: None,
            container_statuses: None,
            init_container_statuses: None,
        }),
    };
    let stats = PodStats::builder(&pod).build_at(25_500);
    assert_eq!(stats.controller, "web");
    assert_eq!(stats.controller_type, "ReplicaSet");
    assert_eq!(stats.created, 10_000);
    assert_eq!(stats.pod_age, 15_500);
    assert_eq!(stats.ip, "10.0.0.7");
    assert_eq!(stats.namespace, "shop");
    assert_eq!(stats.node, "node-a");
    assert_eq!(stats.phase, "Running");
    assert_eq!(stats.pod, "web-1");
    assert_eq!(stats.priority_class, "high");
    assert_eq!(stats.priority, Some(0));
    assert_eq!(stats.qos_class, "Burstable");
    assert_eq!(stats.resource, "container");
    assert_eq!(stats.type_, "metric");

    let copy = stats.clone();
    assert_eq!(copy.pod, "web-1");
    assert_eq!(copy.pod_age, 15_500);
    assert_eq!(copy.priority, Some(0));
}

#[test]
fn pod_record_of_an_empty_pod() {
    let pod = Pod::default();
    let stats = PodStatsBuilder::new(&pod).build_at(99);
    assert_eq!(stats.controller, "");
    assert_eq!(stats.controller_type, "");
    assert_eq!(stats.created, 0);
    assert_eq!(stats.pod_age, 0);
    assert_eq!(stats.ip, "");
    assert_eq!(stats.namespace, "");
    assert_eq!(stats.node, "");
    assert_eq!(stats.phase, "");
    assert_eq!(stats.pod, "");
    assert_eq!(stats.priority_class, "");
    assert_eq!(stats.priority, None);
    assert_eq!(stats.qos_class, "");
    assert_eq!(stats.resource, "container");
    assert_eq!(stats.type_, "metric");
}

#[test]
fn pod_record_with_the_clock() {
    let mut pod = Pod::default();
    pod.status = Some(PodStatus { start_time: Some(1_000), ..PodStatus::default() });
    let stats = PodStats::builder(&pod).build();
    assert_eq!(stats.created, 1_000);
    assert!(stats.pod_age > 1_600_000_000_000);
}

#[test]
fn image_is_split_at_the_last_colon() {
    let parts = |image: &str| split_image(&text(image));
    assert_eq!(parts("nginx:1.25"), ("nginx".to_string(), "1.25".to_string()));
    assert_eq!(
        parts("registry.local:5000/team/app:v2"),
        ("registry.local:5000/team/app".to_string(), "v2".to_string())
    );
    assert_eq!(parts("nginx"), (String::new(), String::new()));
    assert_eq!(parts("nginx:"), ("nginx".to_string(), String::new()));
    assert_eq!(parts(":tag"), (String::new(), "tag".to_string()));
    assert_eq!(parts(""), (String::new(), String::new()));
    assert_eq!(parts("caf\u{e9}:\u{fc}ber"), ("caf\u{e9}".to_string(), "\u{fc}ber".to_string()));
    assert_eq!(split_image(&None), (String::new(), String::new()));
}

#[test]
fn state_is_running_then_terminated_then_waiting() {
    assert_eq!(current_lifecycle(&running(None)), Lifecycle::Running);
    assert_eq!(current_lifecycle(&terminated(None, None, None)), Lifecycle::Terminated);
    assert_eq!(current_lifecycle(&waiting()), Lifecycle::Waiting);
    assert_eq!(current_lifecycle(&ContainerState::default()), Lifecycle::Waiting);
    let both = ContainerState {
        running: Some(ContainerStateRunning { started_at: None }),
        terminated: Some(ContainerStateTerminated::default()),
        waiting: true,
    };
    assert_eq!(current_lifecycle(&both), Lifecycle::Running);
    assert_eq!(Lifecycle::Running.to_text(), "Running");
    assert_eq!(Lifecycle::Terminated.to_text(), "Terminated");
    assert_eq!(Lifecycle::Waiting.to_text(), "Waiting");
}

#[test]
fn running_container_record() {
    let container = Container {
        name: "app".to_string(),
        image: text("nginx:1.25"),
        resources: Some(ResourceRequirements {
            limits: Some(ResourceList { cpu: text("2"), memory: text("1Gi"), pods: None }),
            requests: Some(ResourceList { cpu: text("250m"), memory: None, pods: None }),
        }),
    };
    let state = running(Some(4_000));
    let status = status(Some(terminated(Some(1_000), Some(2_000), Some("OOMKilled"))));
    let stats =
        ContainerStats::builder(&container, &status, &state, "123456789n", "64Mi").build_at(10_000);
    assert_eq!(stats.container, "app");
    assert_eq!(stats.image, "nginx");
    assert_eq!(stats.image_tag, "1.25");
    assert_eq!(stats.state, "Running");
    assert_eq!(stats.container_age, 6_000);
    assert_eq!(stats.started, 4_000);
    assert_eq!(stats.restarts, 3);
    assert!(stats.ready);
    assert_eq!(stats.cpu_usage, 124);
    assert_eq!(stats.memory_usage, 64 * 1024 * 1024);
    assert_eq!(stats.cpu_limit, Some(2000));
    assert_eq!(stats.memory_limit, Some(1024 * 1024 * 1024));
    assert_eq!(stats.cpu_request, Some(250));
    assert_eq!(stats.memory_request, None);
    assert_eq!(stats.last_state, "Terminated");
    assert_eq!(stats.last_reason, "OOMKilled");
    assert_eq!(stats.last_started, Some(1_000));
    assert_eq!(stats.last_finished, Some(2_000));
}

#[test]
fn earlier_state_equal_to_the_current_one_is_left_out() {
    let container = plain_container();
    let state = terminated(Some(5), Some(6), Some("Error"));
    let status = status(Some(terminated(Some(1), Some(2), Some("Completed"))));
    let stats = ContainerStatsBuilder::new(&container, &status, &state, "", "").build_at(100);
    assert_eq!(stats.state, "Terminated");
    assert_eq!(stats.last_state, "");
    assert_eq!(stats.last_reason, "");
    assert_eq!(stats.last_started, None);
    assert_eq!(stats.last_finished, None);
    assert_eq!(stats.container_age, 0);
    assert_eq!(stats.started, 0);
    assert_eq!(stats.cpu_limit, None);
    assert_eq!(stats.cpu_request, None);
    assert_eq!(stats.memory_limit, None);
    assert_eq!(stats.memory_request, None);
    assert_eq!(stats.cpu_usage, 0);
    assert_eq!(stats.memory_usage, 0);
}

#[test]
fn earlier_states_overrule_each_other_in_order() {
    let previous = |last: Option<ContainerState>, current: Lifecycle| {
        let p = read_previous(&last, current);
        (p.state, p.reason, p.started, p.finished)
    };
    assert_eq!(previous(None, Lifecycle::Running), (None, String::new(), None, None));
    assert_eq!(
        previous(Some(ContainerState::default()), Lifecycle::Running),
        (None, String::new(), None, None)
    );
    assert_eq!(
        previous(Some(waiting()), Lifecycle::Running),
        (Some(Lifecycle::Waiting), String::new(), None, None)
    );
    assert_eq!(previous(Some(waiting()), Lifecycle::Waiting), (None, String::new(), None, None));
    assert_eq!(
        previous(Some(running(Some(7))), Lifecycle::Waiting),
        (Some(Lifecycle::Running), String::new(), Some(7), None)
    );
    let all = ContainerState {
        running: Some(ContainerStateRunning { started_at: Some(7) }),
        terminated: Some(ContainerStateTerminated {
            started_at: None,
            finished_at: Some(9),
            reason: None,
        }),
        waiting: true,
    };
    assert_eq!(
        previous(Some(all.clone()), Lifecycle::Running),
        (Some(Lifecycle::Terminated), String::new(), Some(7), Some(9))
    );
    assert_eq!(previous(Some(all), Lifecycle::Terminated), (None, String::new(), None, None));
}

#[test]
fn container_record_with_the_clock() {
    let container = plain_container();
    let state = running(Some(1_000));
    let status = status(None);
    let stats = ContainerStats::builder(&container, &status, &state, "1", "1").build();
    assert_eq!(stats.started, 1_000);
    assert!(stats.container_age > 1_600_000_000_000);
}

#[test]
fn extended_record_starts_with_a_zero_rollup() {
    let pod = Pod::default();
    let container = plain_container();
    let state = waiting();
    let status = status(None);
    let record = ExtendedPodStats::new(
        PodStats::builder(&pod).build_at(0),
        ContainerStats::builder(&container, &status, &state, "", "").build_at(0),
    );
    assert_eq!(record.controller_stats, ControllerStats::new());
    assert_eq!(record.container_stats.state, "Waiting");
    assert_eq!(record.pod_stats.resource, "container");
}

fn full_node() -> Node {
    Node {
        metadata: ObjectMeta {
            name: text("node-a"),
            namespace: None,
            owner_references: None,
            creation_timestamp: Some(1_500),
        },
        spec: Some(NodeSpec { unschedulable: Some(true) }),
        status: Some(NodeStatus {
            node_info: Some(NodeSystemInfo {
                container_runtime_version: "containerd://1.7".to_string(),
                kernel_version: "6.1".to_string(),
                kubelet_version: "v1.30".to_string(),
                os_image: "Linux".to_string(),
            }),
            allocatable: Some(ResourceList { cpu: text("4"), memory: text("8Gi"), pods: text("110") }),
            capacity: Some(ResourceList { cpu: text("3900m"), memory: None, pods: text("many") }),
            addresses: Some(vec![
                NodeAddress { type_: "InternalIP".to_string(), address: "10.0.0.1".to_string() },
                NodeAddress { type_: "Hostname".to_string(), address: "node-a".to_string() },
                NodeAddress { type_: "EXTERNALIP".to_string(), address: "1.2.3.4".to_string() },
                NodeAddress { type_: "internalip".to_string(), address: "10.0.0.2".to_string() },
            ]),
            conditions: Some(vec![
                NodeCondition {
                    type_: "MemoryPressure".to_string(),
                    status: "True".to_string(),
                    message: text("low"),
                    last_heartbeat_time: Some(1),
                    last_transition_time: Some(1),
                },
                NodeCondition {
                    type_: "Ready".to_string(),
                    status: "True".to_string(),
                    message: text("kubelet is posting ready status"),
                    last_heartbeat_time: Some(9_999),
                    last_transition_time: Some(2_001),
                },
            ]),
        }),
    }
}

#[test]
fn node_record_of_a_full_node() {
    let node = full_node();
    let pods = NodePodStats {
        pods_failed: 1,
        pods_pending: 2,
        pods_running: 3,
        pods_succeeded: 4,
        pods_unknown: 5,
        pods_total: 15,
    };
    let containers = NodeContainerStats {
        containers_waiting: 1,
        containers_total: 6,
        containers_terminated: 2,
        containers_running: 3,
        containers_ready: 2,
        containers_init: 4,
    };
    let stats = NodeStats::builder(&node, &pods, &containers, "1500m", "2Gi").build_at(12_000);
    assert_eq!(stats.resource, "node");
    assert_eq!(stats.type_, "metric");
    assert_eq!(stats.node, "node-a");
    assert_eq!(stats.age, 10_500);
    assert_eq!(stats.created, 1);
    assert_eq!(stats.container_runtime_version, "containerd://1.7");
    assert_eq!(stats.kernel_version, "6.1");
    assert_eq!(stats.kubelet_version, "v1.30");
    assert_eq!(stats.os_image, "Linux");
    assert_eq!(stats.ip, "10.0.0.2");
    assert_eq!(stats.ip_external, "1.2.3.4");
    assert_eq!(stats.cpu_allocatable, 4000);
    assert_eq!(stats.cpu_capacity, -1000);
    assert_eq!(stats.cpu_usage, 1500);
    assert_eq!(stats.memory_allocatable, 8 * 1024 * 1024 * 1024);
    assert_eq!(stats.memory_capacity, -1);
    assert_eq!(stats.memory_usage, 2 * 1024 * 1024 * 1024);
    assert_eq!(stats.pods_allocatable, 110);
    assert_eq!(stats.pods_capacity, -1);
    assert_eq!(stats.pods_failed, 1);
    assert_eq!(stats.pods_pending, 2);
    assert_eq!(stats.pods_running, 3);
    assert_eq!(stats.pods_succeeded, 4);
    assert_eq!(stats.pods_unknown, 5);
    assert_eq!(stats.pods_total, 15);
    assert_eq!(stats.containers_waiting, 1);
    assert_eq!(stats.containers_total, 6);
    assert_eq!(stats.containers_terminated, 2);
    assert_eq!(stats.containers_running, 3);
    assert_eq!(stats.containers_ready, 2);
    assert_eq!(stats.containers_init, 4);
    assert_eq!(stats.ready, Some(true));
    assert_eq!(stats.ready_status, "True");
    assert_eq!(stats.ready_message, "kubelet is posting ready status");
    assert_eq!(stats.ready_heartbeat_age, 2_001);
    assert_eq!(stats.ready_heartbeat_time, 9);
    assert_eq!(stats.ready_transition_age, 9_999);
    assert_eq!(stats.ready_transition_time, 2);
    assert_eq!(stats.unschedulable, Some(true));
}

#[test]
fn node_record_of_an_empty_node() {
    let node = Node::default();
    let stats =
        NodeStatsBuilder::new(&node, &NodePodStats::new(), &NodeContainerStats::new(), "", "")
            .build_at(5);
    assert_eq!(stats.node, "");
    assert_eq!(stats.age, 0);
    assert_eq!(stats.created, 0);
    assert_eq!(stats.ip, "");
    assert_eq!(stats.ip_external, "");
    assert_eq!(stats.cpu_allocatable, ABSENT);
    assert_eq!(stats.cpu_capacity, ABSENT);
    assert_eq!(stats.memory_allocatable, ABSENT);
    assert_eq!(stats.memory_capacity, ABSENT);
    assert_eq!(stats.pods_allocatable, ABSENT);
    assert_eq!(stats.pods_capacity, ABSENT);
    assert_eq!(stats.cpu_usage, 0);
    assert_eq!(stats.memory_usage, 0);
    assert_eq!(stats.ready, None);
    assert_eq!(stats.ready_status, "");
    assert_eq!(stats.ready_message, "");
    assert_eq!(stats.ready_heartbeat_age, 0);
    assert_eq!(stats.ready_heartbeat_time, 0);
    assert_eq!(stats.ready_transition_age, 0);
    assert_eq!(stats.ready_transition_time, 0);
    assert_eq!(stats.unschedulable, None);
    assert_eq!(stats.resource, "node");
    assert_eq!(ABSENT, -1);
    assert_eq!(CPU_MULTIPLIER, 1000);
}

#[test]
fn node_record_with_the_clock() {
    let node = full_node();
    let stats =
        NodeStats::builder(&node, &NodePodStats::new(), &NodeContainerStats::new(), "1", "1")
            .build();
    assert_eq!(stats.created, 1);
    assert!(stats.age > 1_600_000_000_000);
    assert_eq!(stats.ready_heartbeat_age, stats.age - 8_499);
}

#[test]
fn whole_cores_stop_at_the_ends_of_the_range() {
    let mut node = Node::default();
    node.status = Some(NodeStatus {
        allocatable: Some(ResourceList {
            cpu: text("9223372036854775807"),
            memory: None,
            pods: text("-12"),
        }),
        capacity: Some(ResourceList {
            cpu: text("-9223372036854775808"),
            memory: None,
            pods: text("+12"),
        }),
        ..NodeStatus::default()
    });
    let stats =
        NodeStats::builder(&node, &NodePodStats::new(), &NodeContainerStats::new(), "", "")
            .build_at(0);
    assert_eq!(stats.cpu_allocatable, i64::MAX);
    assert_eq!(stats.cpu_capacity, i64::MIN);
    assert_eq!(stats.pods_allocatable, -12);
    assert_eq!(stats.pods_capacity, 12);
}

#[test]
fn readiness_gathers_over_several_conditions() {
    let conditions = vec![
        NodeCondition {
            type_: "ready".to_string(),
            status: "TRUE".to_string(),
            message: None,
            last_heartbeat_time: Some(-1),
            last_transition_time: None,
        },
        NodeCondition {
            type_: "READY".to_string(),
            status: "Unknown".to_string(),
            message: text("gone"),
            last_heartbeat_time: None,
            last_transition_time: Some(-2_000),
        },
    ];
    let first = read_readiness(&conditions[..1].to_vec(), 100);
    assert_eq!(first.ready, Some(true));
    assert_eq!(first.status, "TRUE");
    assert_eq!(first.message, "");
    assert_eq!(first.heartbeat_age, 101);
    assert_eq!(first.heartbeat_time, -1);
    assert_eq!(first.transition_age, 0);
    assert_eq!(first.transition_time, 0);

    let both = read_readiness(&conditions, 100);
    assert_eq!(both.ready, Some(false));
    assert_eq!(both.status, "Unknown");
    assert_eq!(both.message, "gone");
    assert_eq!(both.heartbeat_age, 101);
    assert_eq!(both.heartbeat_time, -1);
    assert_eq!(both.transition_age, 2_100);
    assert_eq!(both.transition_time, -2);

    assert_eq!(read_readiness(&vec![], 100).ready, None);
}

#[test]
fn ready_condition_without_times_still_gives_status_and_message() {
    let mut node = Node::default();
    node.status = Some(NodeStatus {
        conditions: Some(vec![NodeCondition {
            type_: "Ready".to_string(),
            status: "False".to_string(),
            message: text("kubelet stopped"),
            last_heartbeat_time: None,
            last_transition_time: None,
        }]),
        ..NodeStatus::default()
    });
    let stats =
        NodeStats::builder(&node, &NodePodStats::new(), &NodeContainerStats::new(), "", "")
            .build_at(1_000);
    assert_eq!(stats.ready, Some(false));
    assert_eq!(stats.ready_status, "False");
    assert_eq!(stats.ready_message, "kubelet stopped");
    assert_eq!(stats.ready_heartbeat_age, 0);
    assert_eq!(stats.ready_heartbeat_time, 0);
    assert_eq!(stats.ready_transition_age, 0);
    assert_eq!(stats.ready_transition_time, 0);
}

#[test]
fn ages_stop_at_the_ends_of_the_range() {
    assert_eq!(elapsed_millis(10, 3), 7);
    assert_eq!(elapsed_millis(3, 10), -7);
    assert_eq!(elapsed_millis(i64::MAX, -1), i64::MAX);
    assert_eq!(elapsed_millis(i64::MIN, 1), i64::MIN);
    assert_eq!(elapsed_millis(i64::MIN, i64::MIN), 0);
}

#[test]
fn seconds_round_down() {
    assert_eq!(whole_seconds(0), 0);
    assert_eq!(whole_seconds(999), 0);
    assert_eq!(whole_seconds(1_000), 1);
    assert_eq!(whole_seconds(-1), -1);
    assert_eq!(whole_seconds(-1_000), -1);
    assert_eq!(whole_seconds(-1_001), -2);
    assert_eq!(whole_seconds(i64::MIN), -9_223_372_036_854_776);
    assert_eq!(whole_seconds(i64::MAX), 9_223_372_036_854_775);
}

#[test]
fn integers_are_read_as_the_standard_library_reads_them() {
    for text in [
        "0", "7", "+7", "-7", "007", "", "+", "-", " 7", "7 ", "1.5", "1e3", "--1", "+-1",
        "9223372036854775807", "9223372036854775808", "-9223372036854775808",
        "-9223372036854775809", "99999999999999999999999999999999999999", "12a", "\u{663}",
    ] {
        assert_eq!(parse_i64(text), text.parse::<i64>().ok(), "{:?}", text);
    }
}

#[test]
fn texts_compare() {
    assert_eq!(chars_of("a\u{e9}b"), vec!['a', '\u{e9}', 'b']);
    assert!(eq_ignore_ascii_case("InternalIP", "internalip"));
    assert!(eq_ignore_ascii_case("", ""));
    assert!(!eq_ignore_ascii_case("ready", "read"));
    assert!(!eq_ignore_ascii_case("[", "{"));
    assert!(!eq_ignore_ascii_case("@", "`"));
    assert!(!eq_ignore_ascii_case("\u{212a}", "k"));
    assert!(eq_ignore_ascii_case("Z", "z"));
    assert!(eq_ignore_ascii_case("A", "a"));
}
