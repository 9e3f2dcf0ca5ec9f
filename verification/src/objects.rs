//! The parts of the cluster's objects that the statistics read, as plain values.
//!
//! Times are milliseconds since the Unix epoch. A resource list keeps the three
//! quantities that are looked up by name.

use vstd::prelude::*;

verus! {

/// A reference from an object to one of its owners.
#[derive(Clone, Debug, Default)]
pub struct OwnerReference {
    pub name: String,
    pub kind: String,
    pub controller: Option<bool>,
}

/// The metadata that every object carries.
#[derive(Clone, Debug, Default)]
pub struct ObjectMeta {
    pub name: Option<String>,
    pub namespace: Option<String>,
    pub owner_references: Option<Vec<OwnerReference>>,
    pub creation_timestamp: Option<i64>,
}

/// The quantities `cpu`, `memory` and `pods` of a resource list, as written.
#[derive(Clone, Debug, Default)]
pub struct ResourceList {
    pub cpu: Option<String>,
    pub memory: Option<String>,
    pub pods: Option<String>,
}

/// What a container may use at most and what it asks for.
#[derive(Clone, Debug, Default)]
pub struct ResourceRequirements {
    pub limits: Option<ResourceList>,
    pub requests: Option<ResourceList>,
}

/// A container as a pod's spec declares it.
#[derive(Clone, Debug, Default)]
pub struct Container {
    pub name: String,
    pub image: Option<String>,
    pub resources: Option<ResourceRequirements>,
}

/// Details of a running container.
#[derive(Clone, Debug, Default)]
pub struct ContainerStateRunning {
    pub started_at: Option<i64>,
}

/// Details of a terminated container.
#[derive(Clone, Debug, Default)]
pub struct ContainerStateTerminated {
    pub started_at: Option<i64>,
    pub finished_at: Option<i64>,
    pub reason: Option<String>,
}

/// The state of a container: at most one of the three is expected to be set.
#[derive(Clone, Debug, Default)]
pub struct ContainerState {
    pub running: Option<ContainerStateRunning>,
    pub terminated: Option<ContainerStateTerminated>,
    pub waiting: bool,
}

/// What the cluster reports of one container of a pod.
#[derive(Clone, Debug, Default)]
pub struct ContainerStatus {
    pub name: String,
    pub ready: bool,
    pub restart_count: i32,
    pub state: Option<ContainerState>,
    pub last_state: Option<ContainerState>,
}

/// One condition of a pod.
#[derive(Clone, Debug, Default)]
pub struct PodCondition {
    pub type_: String,
    pub status: String,
}

/// What a pod is asked to be.
#[derive(Clone, Debug, Default)]
pub struct PodSpec {
    pub priority: Option<i32>,
    pub priority_class_name: Option<String>,
    pub node_name: Option<String>,
    pub containers: Vec<Container>,
    pub init_containers: Option<Vec<Container>>,
}

/// What the cluster reports of a pod.
#[derive(Clone, Debug, Default)]
pub struct PodStatus {
    pub start_time: Option<i64>,
    pub pod_ip: Option<String>,
    pub phase: Option<String>,
    pub qos_class: Option<String>,
    pub conditions: Option<Vec<PodCondition>>,
    pub container_statuses: Option<Vec<ContainerStatus>>,
    pub init_container_statuses: Option<Vec<ContainerStatus>>,
}

/// A pod.
#[derive(Clone, Debug, Default)]
pub struct Pod {
    pub metadata: ObjectMeta,
    pub spec: Option<PodSpec>,
    pub status: Option<PodStatus>,
}

/// Versions of the software that runs a node.
#[derive(Clone, Debug, Default)]
pub struct NodeSystemInfo {
    pub container_runtime_version: String,
    pub kernel_version: String,
    pub kubelet_version: String,
    pub os_image: String,
}

/// One address of a node.
#[derive(Clone, Debug, Default)]
pub struct NodeAddress {
    pub type_: String,
    pub address: String,
}

/// One condition of a node.
#[derive(Clone, Debug, Default)]
pub struct NodeCondition {
    pub type_: String,
    pub status: String,
    pub message: Option<String>,
    pub last_heartbeat_time: Option<i64>,
    pub last_transition_time: Option<i64>,
}

/// What a node is asked to be.
#[derive(Clone, Debug, Default)]
pub struct NodeSpec {
    pub unschedulable: Option<bool>,
}

/// What the cluster reports of a node.
#[derive(Clone, Debug, Default)]
pub struct NodeStatus {
    pub node_info: Option<NodeSystemInfo>,
    pub allocatable: Option<ResourceList>,
    pub capacity: Option<ResourceList>,
    pub addresses: Option<Vec<NodeAddress>>,
    pub conditions: Option<Vec<NodeCondition>>,
}

/// A node.
#[derive(Clone, Debug, Default)]
pub struct Node {
    pub metadata: ObjectMeta,
    pub spec: Option<NodeSpec>,
    pub status: Option<NodeStatus>,
}

/// The usage that the metrics server reports, as written; a quantity that is
/// missing or no string is `None`.
#[derive(Debug, Default)]
pub struct Usage {
    pub cpu: Option<String>,
    pub memory: Option<String>,
}

impl Clone for Usage {
    fn clone(&self) -> (copy: Self)
        ensures
            copy == *self,
    {
        Usage { cpu: clone_text(&self.cpu), memory: clone_text(&self.memory) }
    }
}

/// One entry of the `containers` array of a pod's metrics.
#[derive(Clone, Debug, Default)]
pub struct ContainerMetrics {
    pub name: Option<String>,
    pub usage: Usage,
}

/// The metrics of one pod; `containers` is `None` where the object holds no such array.
#[derive(Clone, Debug, Default)]
pub struct PodMetrics {
    pub containers: Option<Vec<ContainerMetrics>>,
}

/// The metrics of one node.
#[derive(Clone, Debug, Default)]
pub struct NodeMetrics {
    pub name: Option<String>,
    pub usage: Usage,
}

/// A copy of a text that may be missing.
pub fn clone_text(text: &Option<String>) -> (copy: Option<String>)
    ensures
        copy == *text,
{
    match text {
        Some(t) => Some(t.clone()),
        None => None,
    }
}

/// The items of a list that may be missing; none where it is.
pub open spec fn list_or_empty<T>(list: Option<Vec<T>>) -> Seq<T> {
    match list {
        Some(items) => items@,
        None => Seq::empty(),
    }
}

/// A list that may be missing, borrowed; the empty list `fallback` where it is.
pub(crate) fn borrow_or<'a, T>(list: &'a Option<Vec<T>>, fallback: &'a Vec<T>) -> (borrowed: &'a Vec<T>)
    requires
        fallback@.len() == 0,
    ensures
        borrowed@ == list_or_empty(*list),
{
    match list {
        Some(items) => items,
        None => {
            assert(fallback@ == Seq::<T>::empty());
            fallback
        },
    }
}

/// A text that may be missing, read as the empty text where it is.
pub open spec fn text_or_empty(text: Option<String>) -> Seq<char> {
    match text {
        Some(t) => t@,
        None => Seq::empty(),
    }
}

/// A copy of a text that may be missing; the empty text where it is.
pub fn clone_or_empty(text: &Option<String>) -> (copy: String)
    ensures
        copy@ == text_or_empty(*text),
{
    match text {
        Some(t) => t.clone(),
        None => String::new(),
    }
}

/// A text that may be missing, borrowed; the empty text where it is.
pub fn str_or_empty(text: &Option<String>) -> (borrowed: &str)
    ensures
        borrowed@ == text_or_empty(*text),
{
    proof {
        reveal_strlit("");
    }
    match text {
        Some(t) => t.as_str(),
        None => "",
    }
}

} // verus!
