//! Pod records.

use crate::clock::{elapsed, elapsed_millis, now_millis};
use crate::objects::{clone_or_empty, text_or_empty, OwnerReference, Pod};
use vstd::prelude::*;

verus! {

/// One pod, as it is written out with each of its containers.
#[derive(Debug)]
pub struct PodStats {
    pub controller: String,
    pub controller_type: String,
    pub created: i64,
    pub ip: String,
    pub namespace: String,
    pub node: String,
    pub phase: String,
    pub pod_age: i64,
    pub pod: String,
    pub priority_class: String,
    pub priority: Option<i32>,
    pub qos_class: String,
    pub resource: String,
    pub type_: String,
}

/// The mathematical content of a [`PodStats`].
pub ghost struct PodStatsView {
    pub controller: Seq<char>,
    pub controller_type: Seq<char>,
    pub created: i64,
    pub ip: Seq<char>,
    pub namespace: Seq<char>,
    pub node: Seq<char>,
    pub phase: Seq<char>,
    pub pod_age: i64,
    pub pod: Seq<char>,
    pub priority_class: Seq<char>,
    pub priority: Option<i32>,
    pub qos_class: Seq<char>,
    pub resource: Seq<char>,
    pub type_: Seq<char>,
}

impl View for PodStats {
    type V = PodStatsView;

    open spec fn view(&self) -> PodStatsView {
        PodStatsView {
            controller: self.controller@,
            controller_type: self.controller_type@,
            created: self.created,
            ip: self.ip@,
            namespace: self.namespace@,
            node: self.node@,
            phase: self.phase@,
            pod_age: self.pod_age,
            pod: self.pod@,
            priority_class: self.priority_class@,
            priority: self.priority,
            qos_class: self.qos_class@,
            resource: self.resource@,
            type_: self.type_@,
        }
    }
}

impl Clone for PodStats {
    fn clone(&self) -> (copy: Self)
        ensures
            copy@ == self@,
    {
        PodStats {
            controller: self.controller.clone(),
            controller_type: self.controller_type.clone(),
            created: self.created,
            ip: self.ip.clone(),
            namespace: self.namespace.clone(),
            node: self.node.clone(),
            phase: self.phase.clone(),
            pod_age: self.pod_age,
            pod: self.pod.clone(),
            priority_class: self.priority_class.clone(),
            priority: self.priority,
            qos_class: self.qos_class.clone(),
            resource: self.resource.clone(),
            type_: self.type_.clone(),
        }
    }
}

/// The first of `owners` that is marked as the controller.
pub open spec fn controlling_owner(owners: Seq<OwnerReference>) -> Option<OwnerReference>
    decreases owners.len(),
{
    if owners.len() == 0 {
        None
    } else if owners.first().controller == Some(true) {
        Some(owners.first())
    } else {
        controlling_owner(owners.drop_first())
    }
}

/// Name and kind of the controller among a pod's owners; two empty texts
/// where no owner is marked as the controller.
pub open spec fn controller_details(owners: Option<Vec<OwnerReference>>) -> (Seq<char>, Seq<char>) {
    match owners {
        Some(list) => match controlling_owner(list@) {
            Some(owner) => (owner.name@, owner.kind@),
            None => (Seq::empty(), Seq::empty()),
        },
        None => (Seq::empty(), Seq::empty()),
    }
}

/// The record of pod `p` at time `now`.
///
/// Fields of a spec or status that is missing stay at their defaults: the
/// empty text, zero for age and creation time, `None` for the priority.
pub open spec fn pod_stats_of(p: Pod, now: i64) -> PodStatsView {
    let details = controller_details(p.metadata.owner_references);
    let start_time = match p.status {
        Some(status) => status.start_time,
        None => None,
    };
    PodStatsView {
        controller: details.0,
        controller_type: details.1,
        created: match start_time {
            Some(started) => started,
            None => 0,
        },
        ip: match p.status {
            Some(status) => text_or_empty(status.pod_ip),
            None => Seq::empty(),
        },
        namespace: text_or_empty(p.metadata.namespace),
        node: match p.spec {
            Some(spec) => text_or_empty(spec.node_name),
            None => Seq::empty(),
        },
        phase: match p.status {
            Some(status) => text_or_empty(status.phase),
            None => Seq::empty(),
        },
        pod_age: match start_time {
            Some(started) => elapsed(now, started),
            None => 0,
        },
        pod: text_or_empty(p.metadata.name),
        priority_class: match p.spec {
            Some(spec) => text_or_empty(spec.priority_class_name),
            None => Seq::empty(),
        },
        priority: match p.spec {
            Some(spec) => spec.priority,
            None => None,
        },
        qos_class: match p.status {
            Some(status) => text_or_empty(status.qos_class),
            None => Seq::empty(),
        },
        resource: "container"@,
        type_: "metric"@,
    }
}

/// Name and kind of the first owner that is marked as the controller.
pub fn get_controller_details(owners: &Option<Vec<OwnerReference>>) -> (details: (String, String))
    ensures
        (details.0@, details.1@) == controller_details(*owners),
{
    match owners {
        Some(list) => {
            let mut i: usize = 0;
            assert(list@.skip(0) == list@);
            while i < list.len()
                invariant
                    i <= list.len(),
                    *owners == Some(*list),
                    controlling_owner(list@) == controlling_owner(list@.skip(i as int)),
                decreases list.len() - i,
            {
                assert(list@.skip(i as int).first() == list@[i as int]);
                assert(list@.skip(i as int).drop_first() == list@.skip(i + 1));
                match list[i].controller {
                    Some(true) => {
                        assert(controlling_owner(list@.skip(i as int)) == Some(list@[i as int]));
                        return (list[i].name.clone(), list[i].kind.clone());
                    },
                    _ => {},
                }
                i += 1;
            }
            (String::new(), String::new())
        },
        None => (String::new(), String::new()),
    }
}

impl PodStats {
    /// Starts the record of pod `p`.
    pub fn builder<'a>(p: &'a Pod) -> (builder: PodStatsBuilder<'a>)
        ensures
            builder.p == p,
    {
        PodStatsBuilder { p }
    }
}

/// What a pod's record is built from.
pub struct PodStatsBuilder<'a> {
    pub p: &'a Pod,
}

impl<'a> PodStatsBuilder<'a> {
    /// Starts the record of pod `p`.
    pub fn new(p: &'a Pod) -> (builder: PodStatsBuilder<'a>)
        ensures
            builder.p == p,
    {
        PodStatsBuilder { p }
    }

    /// Builds the record as of the time `now`, in milliseconds since the epoch.
    pub fn build_at(self, now: i64) -> (stats: PodStats)
        ensures
            stats@ == pod_stats_of(*self.p, now),
    {
        let details = get_controller_details(&self.p.metadata.owner_references);

        let mut priority_class = String::new();
        let mut node = String::new();
        let mut ip = String::new();
        let mut phase = String::new();
        let mut qos_class = String::new();
        let mut pod_age: i64 = 0;
        let mut created: i64 = 0;
        let mut priority: Option<i32> = None;

        let namespace = clone_or_empty(&self.p.metadata.namespace);
        let pod = clone_or_empty(&self.p.metadata.name);

        match &self.p.spec {
            Some(spec) => {
                priority = spec.priority;
                priority_class = clone_or_empty(&spec.priority_class_name);
                node = clone_or_empty(&spec.node_name);
            },
            None => {},
        }

        match &self.p.status {
            Some(status) => {
                match status.start_time {
                    Some(pod_created) => {
                        pod_age = elapsed_millis(now, pod_created);
                        created = pod_created;
                    },
                    None => {},
                }
                ip = clone_or_empty(&status.pod_ip);
                phase = clone_or_empty(&status.phase);
                qos_class = clone_or_empty(&status.qos_class);
            },
            None => {},
        }

        PodStats {
            controller: details.0,
            controller_type: details.1,
            created,
            ip,
            namespace,
            node,
            phase,
            pod_age,
            pod,
            priority_class,
            priority,
            qos_class,
            resource: "container".to_owned(),
            type_: "metric".to_owned(),
        }
    }

    /// Builds the record as of the time that the clock shows.
    pub fn build(self) -> (stats: PodStats)
        ensures
            exists|now: i64| stats@ == pod_stats_of(*self.p, now),
    {
        let now = now_millis();
        let stats = self.build_at(now);
        assert(stats@ == pod_stats_of(*self.p, now));
        stats
    }
}

} // verus!
