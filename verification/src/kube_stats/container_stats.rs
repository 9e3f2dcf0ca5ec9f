//! Container records.

use crate::clock::{elapsed, elapsed_millis, now_millis};
use crate::kube_stats::helpers::{
    convert_cpu_usage_to_milli, convert_memory_usage_to_bytes, cpu_quantity_millis,
    memory_quantity_bytes,
};
use crate::objects::{
    clone_or_empty, text_or_empty, Container, ContainerState, ContainerStatus, ResourceList,
};
use crate::text::chars_of;
use vstd::prelude::*;

verus! {

/// The three states a container can be in.
#[derive(Clone, Copy, Debug, PartialEq, Eq, Structural)]
pub enum Lifecycle {
    Running,
    Terminated,
    Waiting,
}

impl Lifecycle {
    /// The name under which the state is written out.
    pub open spec fn name(self) -> Seq<char> {
        match self {
            Lifecycle::Running => "Running"@,
            Lifecycle::Terminated => "Terminated"@,
            Lifecycle::Waiting => "Waiting"@,
        }
    }

    /// The name under which the state is written out.
    pub fn to_text(self) -> (text: String)
        ensures
            text@ == self.name(),
    {
        match self {
            Lifecycle::Running => "Running".to_owned(),
            Lifecycle::Terminated => "Terminated".to_owned(),
            Lifecycle::Waiting => "Waiting".to_owned(),
        }
    }
}

/// The state that a state record stands for: running where that is set, else
/// terminated where that is set, else waiting.
pub open spec fn lifecycle_of(state: ContainerState) -> Lifecycle {
    if state.running is Some {
        Lifecycle::Running
    } else if state.terminated is Some {
        Lifecycle::Terminated
    } else {
        Lifecycle::Waiting
    }
}

/// What is known of the state a container was in before its current one.
pub struct Previous {
    pub state: Option<Lifecycle>,
    pub reason: String,
    pub started: Option<i64>,
    pub finished: Option<i64>,
}

/// The mathematical content of a [`Previous`].
pub ghost struct PreviousView {
    pub state: Option<Lifecycle>,
    pub reason: Seq<char>,
    pub started: Option<i64>,
    pub finished: Option<i64>,
}

impl View for Previous {
    type V = PreviousView;

    open spec fn view(&self) -> PreviousView {
        PreviousView {
            state: self.state,
            reason: self.reason@,
            started: self.started,
            finished: self.finished,
        }
    }
}

/// Nothing known of an earlier state.
pub open spec fn no_previous() -> PreviousView {
    PreviousView { state: None, reason: Seq::empty(), started: None, finished: None }
}

/// What a last-state record says, before it is held against the current state.
///
/// Of the three parts of the record each one that is set overrules the ones
/// before it, in the order waiting, running, terminated. A start time is taken
/// from the running part and then from the terminated part, where they have one.
pub open spec fn recorded_previous(last: Option<ContainerState>) -> PreviousView {
    match last {
        None => no_previous(),
        Some(record) => {
            let waited = PreviousView {
                state: if record.waiting {
                    Some(Lifecycle::Waiting)
                } else {
                    None
                },
                ..no_previous()
            };
            let ran = match record.running {
                Some(running) => PreviousView {
                    state: Some(Lifecycle::Running),
                    started: running.started_at,
                    ..waited
                },
                None => waited,
            };
            match record.terminated {
                Some(terminated) => PreviousView {
                    state: Some(Lifecycle::Terminated),
                    started: if terminated.started_at is Some {
                        terminated.started_at
                    } else {
                        ran.started
                    },
                    finished: terminated.finished_at,
                    reason: text_or_empty(terminated.reason),
                },
                None => ran,
            }
        },
    }
}

/// What is written out of the earlier state: nothing where none is recorded
/// or where it is the state the container is in now.
pub open spec fn previous_of(last: Option<ContainerState>, current: Lifecycle) -> PreviousView {
    let recorded = recorded_previous(last);
    if recorded.state is None || recorded.state == Some(current) {
        no_previous()
    } else {
        recorded
    }
}

/// Where `c` stands last in `text`.
pub open spec fn last_index_of(text: Seq<char>, c: char) -> Option<int>
    decreases text.len(),
{
    if text.len() == 0 {
        None
    } else if text.last() == c {
        Some(text.len() - 1)
    } else {
        last_index_of(text.drop_last(), c)
    }
}

/// Name and tag of an image: what stands before and behind its last colon.
/// Both are empty where the image is missing or holds no colon.
pub open spec fn image_parts(image: Option<String>) -> (Seq<char>, Seq<char>) {
    match image {
        Some(text) => match last_index_of(text@, ':') {
            Some(i) => (text@.take(i), text@.skip(i + 1)),
            None => (Seq::empty(), Seq::empty()),
        },
        None => (Seq::empty(), Seq::empty()),
    }
}

/// Millicores of the CPU quantity of a resource list, where it has one.
pub open spec fn cpu_of(list: Option<ResourceList>) -> Option<i32> {
    match list {
        Some(l) => match l.cpu {
            Some(q) => Some(cpu_quantity_millis(q@)),
            None => None,
        },
        None => None,
    }
}

/// Bytes of the memory quantity of a resource list, where it has one.
pub open spec fn memory_of(list: Option<ResourceList>) -> Option<i64> {
    match list {
        Some(l) => match l.memory {
            Some(q) => Some(memory_quantity_bytes(q@)),
            None => None,
        },
        None => None,
    }
}

/// One container, as it is written out.
#[derive(Debug)]
pub struct ContainerStats {
    pub container_age: i64,
    pub container: String,
    pub cpu_limit: Option<i32>,
    pub cpu_request: Option<i32>,
    pub cpu_usage: i32,
    pub image_tag: String,
    pub image: String,
    pub last_finished: Option<i64>,
    pub last_reason: String,
    pub last_started: Option<i64>,
    pub last_state: String,
    pub memory_limit: Option<i64>,
    pub memory_request: Option<i64>,
    pub memory_usage: i64,
    pub ready: bool,
    pub restarts: i32,
    pub started: i64,
    pub state: String,
}

/// The mathematical content of a [`ContainerStats`].
pub ghost struct ContainerStatsView {
    pub container_age: i64,
    pub container: Seq<char>,
    pub cpu_limit: Option<i32>,
    pub cpu_request: Option<i32>,
    pub cpu_usage: i32,
    pub image_tag: Seq<char>,
    pub image: Seq<char>,
    pub last_finished: Option<i64>,
    pub last_reason: Seq<char>,
    pub last_started: Option<i64>,
    pub last_state: Seq<char>,
    pub memory_limit: Option<i64>,
    pub memory_request: Option<i64>,
    pub memory_usage: i64,
    pub ready: bool,
    pub restarts: i32,
    pub started: i64,
    pub state: Seq<char>,
}

impl View for ContainerStats {
    type V = ContainerStatsView;

    open spec fn view(&self) -> ContainerStatsView {
        ContainerStatsView {
            container_age: self.container_age,
            container: self.container@,
            cpu_limit: self.cpu_limit,
            cpu_request: self.cpu_request,
            cpu_usage: self.cpu_usage,
            image_tag: self.image_tag@,
            image: self.image@,
            last_finished: self.last_finished,
            last_reason: self.last_reason@,
            last_started: self.last_started,
            last_state: self.last_state@,
            memory_limit: self.memory_limit,
            memory_request: self.memory_request,
            memory_usage: self.memory_usage,
            ready: self.ready,
            restarts: self.restarts,
            started: self.started,
            state: self.state@,
        }
    }
}

/// When a container that is running was started, where that is known.
pub open spec fn running_since(state: ContainerState) -> Option<i64> {
    match state.running {
        Some(running) => running.started_at,
        None => None,
    }
}

/// The record of container `c` at time `now`, given its status, its current
/// state and its usage as the metrics server wrote it.
///
/// Age and start time are those of a running container whose start is known,
/// and zero otherwise. Limits and requests are `None` where the container
/// declares none.
pub open spec fn container_stats_of(
    c: Container,
    c_status: ContainerStatus,
    c_state: ContainerState,
    raw_cpu_usage: Seq<char>,
    raw_memory_usage: Seq<char>,
    now: i64,
) -> ContainerStatsView {
    let current = lifecycle_of(c_state);
    let previous = previous_of(c_status.last_state, current);
    let limits = match c.resources {
        Some(resources) => resources.limits,
        None => None,
    };
    let requests = match c.resources {
        Some(resources) => resources.requests,
        None => None,
    };
    ContainerStatsView {
        container_age: match running_since(c_state) {
            Some(started) => elapsed(now, started),
            None => 0,
        },
        container: c.name@,
        cpu_limit: cpu_of(limits),
        cpu_request: cpu_of(requests),
        cpu_usage: cpu_quantity_millis(raw_cpu_usage),
        image_tag: image_parts(c.image).1,
        image: image_parts(c.image).0,
        last_finished: previous.finished,
        last_reason: previous.reason,
        last_started: previous.started,
        last_state: match previous.state {
            Some(state) => state.name(),
            None => Seq::empty(),
        },
        memory_limit: memory_of(limits),
        memory_request: memory_of(requests),
        memory_usage: memory_quantity_bytes(raw_memory_usage),
        ready: c_status.ready,
        restarts: c_status.restart_count,
        started: match running_since(c_state) {
            Some(started) => started,
            None => 0,
        },
        state: current.name(),
    }
}

/// A container that is in the state its last-state record names shows nothing
/// of an earlier state: state and reason are empty, both times are missing.
pub proof fn lemma_repeated_state_is_left_out(
    c: Container,
    c_status: ContainerStatus,
    c_state: ContainerState,
    raw_cpu_usage: Seq<char>,
    raw_memory_usage: Seq<char>,
    now: i64,
)
    requires
        recorded_previous(c_status.last_state).state == Some(lifecycle_of(c_state)),
    ensures
        ({
            let stats = container_stats_of(
                c,
                c_status,
                c_state,
                raw_cpu_usage,
                raw_memory_usage,
                now,
            );
            &&& stats.last_state.len() == 0
            &&& stats.last_reason.len() == 0
            &&& stats.last_started is None
            &&& stats.last_finished is None
        }),
{
}

/// The state that a state record stands for.
pub fn current_lifecycle(state: &ContainerState) -> (current: Lifecycle)
    ensures
        current == lifecycle_of(*state),
{
    if state.running.is_some() {
        Lifecycle::Running
    } else if state.terminated.is_some() {
        Lifecycle::Terminated
    } else {
        Lifecycle::Waiting
    }
}

/// Reads a last-state record and holds it against the current state.
pub fn read_previous(last: &Option<ContainerState>, current: Lifecycle) -> (previous: Previous)
    ensures
        previous@ == previous_of(*last, current),
{
    let mut state: Option<Lifecycle> = None;
    let mut reason = String::new();
    let mut started: Option<i64> = None;
    let mut finished: Option<i64> = None;
    match last {
        Some(record) => {
            if record.waiting {
                state = Some(Lifecycle::Waiting);
            }
            match &record.running {
                Some(running) => {
                    state = Some(Lifecycle::Running);
                    started = running.started_at;
                },
                None => {},
            }
            match &record.terminated {
                Some(terminated) => {
                    state = Some(Lifecycle::Terminated);
                    if terminated.started_at.is_some() {
                        started = terminated.started_at;
                    }
                    finished = terminated.finished_at;
                    reason = clone_or_empty(&terminated.reason);
                },
                None => {},
            }
        },
        None => {},
    }
    let repeated = match state {
        Some(recorded) => recorded == current,
        None => true,
    };
    if repeated {
        Previous { state: None, reason: String::new(), started: None, finished: None }
    } else {
        Previous { state, reason, started, finished }
    }
}

/// Splits an image into what stands before and behind its last colon.
pub fn split_image(image: &Option<String>) -> (parts: (String, String))
    ensures
        (parts.0@, parts.1@) == image_parts(*image),
{
    match image {
        Some(text) => {
            let chars = chars_of(text.as_str());
            let mut i: usize = chars.len();
            assert(chars@.take(i as int) == chars@);
            while i > 0
                invariant
                    i <= chars.len(),
                    chars@ == text@,
                    *image == Some(*text),
                    last_index_of(chars@, ':') == last_index_of(chars@.take(i as int), ':'),
                decreases i,
            {
                assert(chars@.take(i as int).drop_last() == chars@.take(i - 1));
                if chars[i - 1] == ':' {
                    let name = text.as_str().substring_char(0, i - 1).to_owned();
                    let tag = text.as_str().substring_char(i, chars.len()).to_owned();
                    assert(text@.subrange(0, i - 1) == text@.take(i - 1));
                    assert(text@.subrange(i as int, chars.len() as int) == text@.skip(i as int));
                    return (name, tag);
                }
                i -= 1;
            }
            (String::new(), String::new())
        },
        None => (String::new(), String::new()),
    }
}

/// Millicores of the CPU quantity of a resource list, where it has one.
fn cpu_from(list: &Option<ResourceList>) -> (millis: Option<i32>)
    ensures
        millis == cpu_of(*list),
{
    match list {
        Some(l) => match &l.cpu {
            Some(q) => Some(convert_cpu_usage_to_milli(q.as_str())),
            None => None,
        },
        None => None,
    }
}

/// Bytes of the memory quantity of a resource list, where it has one.
fn memory_from(list: &Option<ResourceList>) -> (bytes: Option<i64>)
    ensures
        bytes == memory_of(*list),
{
    match list {
        Some(l) => match &l.memory {
            Some(q) => Some(convert_memory_usage_to_bytes(q.as_str())),
            None => None,
        },
        None => None,
    }
}

impl ContainerStats {
    /// Starts the record of container `c` from its status, its current state
    /// and its usage as the metrics server wrote it.
    pub fn builder<'a>(
        c: &'a Container,
        c_status: &'a ContainerStatus,
        c_state: &'a ContainerState,
        raw_cpu_usage: &'a str,
        raw_memory_usage: &'a str,
    ) -> (builder: ContainerStatsBuilder<'a>)
        ensures
            builder.c == c,
            builder.c_status == c_status,
            builder.c_state == c_state,
            builder.raw_cpu_usage == raw_cpu_usage,
            builder.raw_memory_usage == raw_memory_usage,
    {
        ContainerStatsBuilder { c, c_status, c_state, raw_cpu_usage, raw_memory_usage }
    }
}

/// What a container's record is built from.
pub struct ContainerStatsBuilder<'a> {
    pub c: &'a Container,
    pub c_status: &'a ContainerStatus,
    pub c_state: &'a ContainerState,
    pub raw_cpu_usage: &'a str,
    pub raw_memory_usage: &'a str,
}

impl<'a> ContainerStatsBuilder<'a> {
    /// Starts the record of container `c` from its status, its current state
    /// and its usage as the metrics server wrote it.
    pub fn new(
        c: &'a Container,
        c_status: &'a ContainerStatus,
        c_state: &'a ContainerState,
        raw_cpu_usage: &'a str,
        raw_memory_usage: &'a str,
    ) -> (builder: ContainerStatsBuilder<'a>)
        ensures
            builder.c == c,
            builder.c_status == c_status,
            builder.c_state == c_state,
            builder.raw_cpu_usage == raw_cpu_usage,
            builder.raw_memory_usage == raw_memory_usage,
    {
        ContainerStatsBuilder { c, c_status, c_state, raw_cpu_usage, raw_memory_usage }
    }

    /// The record that this builder stands for at time `now`.
    pub open spec fn record_at(self, now: i64) -> ContainerStatsView {
        container_stats_of(
            *self.c,
            *self.c_status,
            *self.c_state,
            self.raw_cpu_usage@,
            self.raw_memory_usage@,
            now,
        )
    }

    /// Builds the record as of the time `now`, in milliseconds since the epoch.
    pub fn build_at(self, now: i64) -> (stats: ContainerStats)
        ensures
            stats@ == self.record_at(now),
    {
        let container = self.c.name.clone();
        let memory_usage = convert_memory_usage_to_bytes(self.raw_memory_usage);
        let cpu_usage = convert_cpu_usage_to_milli(self.raw_cpu_usage);

        let mut cpu_limit: Option<i32> = None;
        let mut cpu_request: Option<i32> = None;
        let mut memory_limit: Option<i64> = None;
        let mut memory_request: Option<i64> = None;
        let mut container_age: i64 = 0;
        let mut started: i64 = 0;

        let parts = split_image(&self.c.image);

        let current = current_lifecycle(self.c_state);
        match &self.c_state.running {
            Some(running) => match running.started_at {
                Some(started_at) => {
                    container_age = elapsed_millis(now, started_at);
                    started = started_at;
                },
                None => {},
            },
            None => {},
        }

        let previous = read_previous(&self.c_status.last_state, current);
        let last_state = match previous.state {
            Some(state) => state.to_text(),
            None => String::new(),
        };

        match &self.c.resources {
            Some(resources) => {
                cpu_limit = cpu_from(&resources.limits);
                memory_limit = memory_from(&resources.limits);
                cpu_request = cpu_from(&resources.requests);
                memory_request = memory_from(&resources.requests);
            },
            None => {},
        }

        ContainerStats {
            container_age,
            container,
            cpu_limit,
            cpu_request,
            cpu_usage,
            image_tag: parts.1,
            image: parts.0,
            last_finished: previous.finished,
            last_reason: previous.reason,
            last_started: previous.started,
            last_state,
            memory_limit,
            memory_request,
            memory_usage,
            ready: self.c_status.ready,
            restarts: self.c_status.restart_count,
            started,
            state: current.to_text(),
        }
    }

    /// Builds the record as of the time that the clock shows.
    pub fn build(self) -> (stats: ContainerStats)
        ensures
            exists|now: i64| stats@ == self.record_at(now),
    {
        let now = now_millis();
        let stats = self.build_at(now);
        assert(stats@ == self.record_at(now));
        stats
    }
}

} // verus!
