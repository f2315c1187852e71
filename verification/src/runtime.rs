//! Runtime metrics: the accumulated state that a runtime collector reports,
//! and what each of its Prometheus metrics reads from it.
use vstd::prelude::*;

use crate::sample::{
    min_max_total, single, triple, unlabelled, Measurement, MetricType, Sample, SampleValue,
    MAX_DURATION_NANOS,
};

verus! {

/// One interval of tokio's runtime metrics, as plain values.
///
/// Durations are held in nanoseconds.
#[derive(Clone, Copy, Debug, PartialEq, Eq, Structural)]
pub struct RuntimeSnapshot {
    pub workers_count: usize,
    pub total_park_count: u64,
    pub max_park_count: u64,
    pub min_park_count: u64,
    pub total_noop_count: u64,
    pub max_noop_count: u64,
    pub min_noop_count: u64,
    pub total_steal_count: u64,
    pub max_steal_count: u64,
    pub min_steal_count: u64,
    pub num_remote_schedules: u64,
    pub total_local_schedule_count: u64,
    pub max_local_schedule_count: u64,
    pub min_local_schedule_count: u64,
    pub total_overflow_count: u64,
    pub max_overflow_count: u64,
    pub min_overflow_count: u64,
    pub total_polls_count: u64,
    pub max_polls_count: u64,
    pub min_polls_count: u64,
    pub total_busy_duration_nanos: u128,
    pub max_busy_duration_nanos: u128,
    pub min_busy_duration_nanos: u128,
    pub injection_queue_depth: usize,
    pub total_local_queue_depth: usize,
    pub max_local_queue_depth: usize,
    pub min_local_queue_depth: usize,
    pub elapsed_nanos: u128,
}

/// Whether accumulating `new` into `current` stays within the range of each
/// field: the integer types for the counts and depths, and that of
/// `std::time::Duration` for the durations.
pub open spec fn fits_accumulation(current: RuntimeSnapshot, new: RuntimeSnapshot) -> bool {
    &&& counter_sums_fit(current, new)
    &&& current.elapsed_nanos + new.elapsed_nanos <= MAX_DURATION_NANOS
}

/// Whether accumulating `new` into `current` keeps every counter, duration and
/// queue depth within its range (the elapsed time aside).
pub open spec fn counter_sums_fit(current: RuntimeSnapshot, new: RuntimeSnapshot) -> bool {
    &&& current.total_park_count + new.total_park_count <= u64::MAX
    &&& current.max_park_count + new.max_park_count <= u64::MAX
    &&& current.min_park_count + new.min_park_count <= u64::MAX
    &&& current.total_noop_count + new.total_noop_count <= u64::MAX
    &&& current.max_noop_count + new.max_noop_count <= u64::MAX
    &&& current.min_noop_count + new.min_noop_count <= u64::MAX
    &&& current.total_steal_count + new.total_steal_count <= u64::MAX
    &&& current.max_steal_count + new.max_steal_count <= u64::MAX
    &&& current.min_steal_count + new.min_steal_count <= u64::MAX
    &&& current.num_remote_schedules + new.num_remote_schedules <= u64::MAX
    &&& current.total_local_schedule_count + new.total_local_schedule_count <= u64::MAX
    &&& current.max_local_schedule_count + new.max_local_schedule_count <= u64::MAX
    &&& current.min_local_schedule_count + new.min_local_schedule_count <= u64::MAX
    &&& current.total_overflow_count + new.total_overflow_count <= u64::MAX
    &&& current.max_overflow_count + new.max_overflow_count <= u64::MAX
    &&& current.min_overflow_count + new.min_overflow_count <= u64::MAX
    &&& current.total_polls_count + new.total_polls_count <= u64::MAX
    &&& current.max_polls_count + new.max_polls_count <= u64::MAX
    &&& current.min_polls_count + new.min_polls_count <= u64::MAX
    &&& current.total_busy_duration_nanos + new.total_busy_duration_nanos <= MAX_DURATION_NANOS
    &&& current.max_busy_duration_nanos + new.max_busy_duration_nanos <= MAX_DURATION_NANOS
    &&& current.min_busy_duration_nanos + new.min_busy_duration_nanos <= MAX_DURATION_NANOS
    &&& current.total_local_queue_depth + new.total_local_queue_depth <= usize::MAX
    &&& current.max_local_queue_depth + new.max_local_queue_depth <= usize::MAX
    &&& current.min_local_queue_depth + new.min_local_queue_depth <= usize::MAX
}

/// The snapshot that results from accumulating `new` into `current`: the
/// gauges (the worker count and the injection queue depth) take the new
/// values; the counters, durations, queue depths and the elapsed time add the
/// new values to the old, so that the busy durations and the elapsed time
/// cover the same span.
pub open spec fn accumulated(current: RuntimeSnapshot, new: RuntimeSnapshot) -> RuntimeSnapshot {
    RuntimeSnapshot {
        workers_count: new.workers_count,
        total_park_count: (current.total_park_count + new.total_park_count) as u64,
        max_park_count: (current.max_park_count + new.max_park_count) as u64,
        min_park_count: (current.min_park_count + new.min_park_count) as u64,
        total_noop_count: (current.total_noop_count + new.total_noop_count) as u64,
        max_noop_count: (current.max_noop_count + new.max_noop_count) as u64,
        min_noop_count: (current.min_noop_count + new.min_noop_count) as u64,
        total_steal_count: (current.total_steal_count + new.total_steal_count) as u64,
        max_steal_count: (current.max_steal_count + new.max_steal_count) as u64,
        min_steal_count: (current.min_steal_count + new.min_steal_count) as u64,
        num_remote_schedules: (current.num_remote_schedules + new.num_remote_schedules) as u64,
        total_local_schedule_count: (current.total_local_schedule_count + new.total_local_schedule_count) as u64,
        max_local_schedule_count: (current.max_local_schedule_count + new.max_local_schedule_count) as u64,
        min_local_schedule_count: (current.min_local_schedule_count + new.min_local_schedule_count) as u64,
        total_overflow_count: (current.total_overflow_count + new.total_overflow_count) as u64,
        max_overflow_count: (current.max_overflow_count + new.max_overflow_count) as u64,
        min_overflow_count: (current.min_overflow_count + new.min_overflow_count) as u64,
        total_polls_count: (current.total_polls_count + new.total_polls_count) as u64,
        max_polls_count: (current.max_polls_count + new.max_polls_count) as u64,
        min_polls_count: (current.min_polls_count + new.min_polls_count) as u64,
        total_busy_duration_nanos: (current.total_busy_duration_nanos + new.total_busy_duration_nanos) as u128,
        max_busy_duration_nanos: (current.max_busy_duration_nanos + new.max_busy_duration_nanos) as u128,
        min_busy_duration_nanos: (current.min_busy_duration_nanos + new.min_busy_duration_nanos) as u128,
        injection_queue_depth: new.injection_queue_depth,
        total_local_queue_depth: (current.total_local_queue_depth + new.total_local_queue_depth) as usize,
        max_local_queue_depth: (current.max_local_queue_depth + new.max_local_queue_depth) as usize,
        min_local_queue_depth: (current.min_local_queue_depth + new.min_local_queue_depth) as usize,
        elapsed_nanos: (current.elapsed_nanos + new.elapsed_nanos) as u128,
    }
}

/// Whether every counter, duration and queue depth of `b` is at least that of `a`.
pub open spec fn counters_grow(a: RuntimeSnapshot, b: RuntimeSnapshot) -> bool {
    &&& a.total_park_count <= b.total_park_count
    &&& a.max_park_count <= b.max_park_count
    &&& a.min_park_count <= b.min_park_count
    &&& a.total_noop_count <= b.total_noop_count
    &&& a.max_noop_count <= b.max_noop_count
    &&& a.min_noop_count <= b.min_noop_count
    &&& a.total_steal_count <= b.total_steal_count
    &&& a.max_steal_count <= b.max_steal_count
    &&& a.min_steal_count <= b.min_steal_count
    &&& a.num_remote_schedules <= b.num_remote_schedules
    &&& a.total_local_schedule_count <= b.total_local_schedule_count
    &&& a.max_local_schedule_count <= b.max_local_schedule_count
    &&& a.min_local_schedule_count <= b.min_local_schedule_count
    &&& a.total_overflow_count <= b.total_overflow_count
    &&& a.max_overflow_count <= b.max_overflow_count
    &&& a.min_overflow_count <= b.min_overflow_count
    &&& a.total_polls_count <= b.total_polls_count
    &&& a.max_polls_count <= b.max_polls_count
    &&& a.min_polls_count <= b.min_polls_count
    &&& a.total_busy_duration_nanos <= b.total_busy_duration_nanos
    &&& a.max_busy_duration_nanos <= b.max_busy_duration_nanos
    &&& a.min_busy_duration_nanos <= b.min_busy_duration_nanos
    &&& a.total_local_queue_depth <= b.total_local_queue_depth
    &&& a.max_local_queue_depth <= b.max_local_queue_depth
    &&& a.min_local_queue_depth <= b.min_local_queue_depth
}

/// Tests whether `new` can be accumulated into `current` without leaving the
/// range of any field.
pub fn can_accumulate(current: &RuntimeSnapshot, new: &RuntimeSnapshot) -> (r: bool)
    ensures
        r == fits_accumulation(*current, *new),
{
    current.total_park_count <= u64::MAX - new.total_park_count
        && current.max_park_count <= u64::MAX - new.max_park_count
        && current.min_park_count <= u64::MAX - new.min_park_count
        && current.total_noop_count <= u64::MAX - new.total_noop_count
        && current.max_noop_count <= u64::MAX - new.max_noop_count
        && current.min_noop_count <= u64::MAX - new.min_noop_count
        && current.total_steal_count <= u64::MAX - new.total_steal_count
        && current.max_steal_count <= u64::MAX - new.max_steal_count
        && current.min_steal_count <= u64::MAX - new.min_steal_count
        && current.num_remote_schedules <= u64::MAX - new.num_remote_schedules
        && current.total_local_schedule_count <= u64::MAX - new.total_local_schedule_count
        && current.max_local_schedule_count <= u64::MAX - new.max_local_schedule_count
        && current.min_local_schedule_count <= u64::MAX - new.min_local_schedule_count
        && current.total_overflow_count <= u64::MAX - new.total_overflow_count
        && current.max_overflow_count <= u64::MAX - new.max_overflow_count
        && current.min_overflow_count <= u64::MAX - new.min_overflow_count
        && current.total_polls_count <= u64::MAX - new.total_polls_count
        && current.max_polls_count <= u64::MAX - new.max_polls_count
        && current.min_polls_count <= u64::MAX - new.min_polls_count
        && (new.total_busy_duration_nanos <= MAX_DURATION_NANOS && current.total_busy_duration_nanos <= MAX_DURATION_NANOS - new.total_busy_duration_nanos)
        && (new.max_busy_duration_nanos <= MAX_DURATION_NANOS && current.max_busy_duration_nanos <= MAX_DURATION_NANOS - new.max_busy_duration_nanos)
        && (new.min_busy_duration_nanos <= MAX_DURATION_NANOS && current.min_busy_duration_nanos <= MAX_DURATION_NANOS - new.min_busy_duration_nanos)
        && current.total_local_queue_depth <= usize::MAX - new.total_local_queue_depth
        && current.max_local_queue_depth <= usize::MAX - new.max_local_queue_depth
        && current.min_local_queue_depth <= usize::MAX - new.min_local_queue_depth
        && (new.elapsed_nanos <= MAX_DURATION_NANOS && current.elapsed_nanos <= MAX_DURATION_NANOS
            - new.elapsed_nanos)
}

/// Adds the counters, durations, queue depths and the elapsed time of a new
/// interval to the accumulated ones, and replaces the gauges with the new
/// values.
pub fn accumulate_metrics(current: &mut RuntimeSnapshot, new: RuntimeSnapshot)
    requires
        fits_accumulation(*old(current), new),
    ensures
        *final(current) == accumulated(*old(current), new),
{
    // Gauges: new values overwrite the old ones.
    current.workers_count = new.workers_count;
    current.injection_queue_depth = new.injection_queue_depth;

    // Counters, durations and queue depths add up.
    current.total_park_count = current.total_park_count + new.total_park_count;
    current.max_park_count = current.max_park_count + new.max_park_count;
    current.min_park_count = current.min_park_count + new.min_park_count;
    current.total_noop_count = current.total_noop_count + new.total_noop_count;
    current.max_noop_count = current.max_noop_count + new.max_noop_count;
    current.min_noop_count = current.min_noop_count + new.min_noop_count;
    current.total_steal_count = current.total_steal_count + new.total_steal_count;
    current.max_steal_count = current.max_steal_count + new.max_steal_count;
    current.min_steal_count = current.min_steal_count + new.min_steal_count;
    current.num_remote_schedules = current.num_remote_schedules + new.num_remote_schedules;
    current.total_local_schedule_count = current.total_local_schedule_count + new.total_local_schedule_count;
    current.max_local_schedule_count = current.max_local_schedule_count + new.max_local_schedule_count;
    current.min_local_schedule_count = current.min_local_schedule_count + new.min_local_schedule_count;
    current.total_overflow_count = current.total_overflow_count + new.total_overflow_count;
    current.max_overflow_count = current.max_overflow_count + new.max_overflow_count;
    current.min_overflow_count = current.min_overflow_count + new.min_overflow_count;
    current.total_polls_count = current.total_polls_count + new.total_polls_count;
    current.max_polls_count = current.max_polls_count + new.max_polls_count;
    current.min_polls_count = current.min_polls_count + new.min_polls_count;
    current.total_busy_duration_nanos = current.total_busy_duration_nanos + new.total_busy_duration_nanos;
    current.max_busy_duration_nanos = current.max_busy_duration_nanos + new.max_busy_duration_nanos;
    current.min_busy_duration_nanos = current.min_busy_duration_nanos + new.min_busy_duration_nanos;
    current.total_local_queue_depth = current.total_local_queue_depth + new.total_local_queue_depth;
    current.max_local_queue_depth = current.max_local_queue_depth + new.max_local_queue_depth;
    current.min_local_queue_depth = current.min_local_queue_depth + new.min_local_queue_depth;
    current.elapsed_nanos = current.elapsed_nanos + new.elapsed_nanos;
}


/// The runtime metrics accumulated over the intervals read since the collector
/// was created.
#[derive(Debug)]
pub struct CachedMonitor {
    current: RuntimeSnapshot,
}

impl View for CachedMonitor {
    type V = RuntimeSnapshot;

    closed spec fn view(&self) -> RuntimeSnapshot {
        self.current
    }
}

impl CachedMonitor {
    /// Starts from the first interval that the runtime's monitor yields.
    pub fn new(first: RuntimeSnapshot) -> (r: Self)
        ensures
            r@ == first,
    {
        CachedMonitor { current: first }
    }

    /// Accumulates the next interval into the current metrics.
    pub fn refresh(&mut self, next: RuntimeSnapshot)
        requires
            fits_accumulation(old(self)@, next),
        ensures
            final(self)@ == accumulated(old(self)@, next),
    {
        accumulate_metrics(&mut self.current, next);
    }

    /// The current metrics.
    pub fn get(&self) -> (r: &RuntimeSnapshot)
        ensures
            *r == self@,
    {
        &self.current
    }
}

/// The metrics that a runtime collector registers.
#[derive(Clone, Copy, Debug, PartialEq, Eq, Structural)]
pub enum RuntimeMetric {
    WorkersCount,
    ParkCount,
    NoopCount,
    StealCount,
    RemoteScheduleCount,
    LocalScheduleCount,
    OverflowCount,
    PollsCount,
    BusyDuration,
    InjectionQueueDepth,
    LocalQueueDepth,
    MeanPollsPerPark,
    BusyRatio,
}

/// The name under which a runtime metric is registered.
pub open spec fn runtime_metric_name(m: RuntimeMetric) -> Seq<char> {
    match m {
        RuntimeMetric::WorkersCount => "workers_count"@,
        RuntimeMetric::ParkCount => "park_count"@,
        RuntimeMetric::NoopCount => "noop_count"@,
        RuntimeMetric::StealCount => "steal_count"@,
        RuntimeMetric::RemoteScheduleCount => "remote_schedule_count"@,
        RuntimeMetric::LocalScheduleCount => "local_schedule_count"@,
        RuntimeMetric::OverflowCount => "overflow_count"@,
        RuntimeMetric::PollsCount => "polls_count"@,
        RuntimeMetric::BusyDuration => "busy_duration_seconds"@,
        RuntimeMetric::InjectionQueueDepth => "injection_queue_depth"@,
        RuntimeMetric::LocalQueueDepth => "local_queue_depth"@,
        RuntimeMetric::MeanPollsPerPark => "mean_polls_per_park"@,
        RuntimeMetric::BusyRatio => "busy_ratio"@,
    }
}

/// The help text under which a runtime metric is registered.
pub open spec fn runtime_metric_description(m: RuntimeMetric) -> Seq<char> {
    match m {
        RuntimeMetric::WorkersCount => "The number of worker threads"@,
        RuntimeMetric::ParkCount => "The number of times worker threads parked"@,
        RuntimeMetric::NoopCount => "The number of times worker threads unparked but performed no work before parking again"@,
        RuntimeMetric::StealCount => "The number of times worker threads stole tasks from another worker thread"@,
        RuntimeMetric::RemoteScheduleCount => "The number of tasks scheduled from **outside** of the runtime"@,
        RuntimeMetric::LocalScheduleCount => "The number of tasks scheduled from worker threads"@,
        RuntimeMetric::OverflowCount => "The number of times worker threads saturated their local queues"@,
        RuntimeMetric::PollsCount => "The number of tasks that have been polled across all worker threads"@,
        RuntimeMetric::BusyDuration => "The amount of time worker threads were busy"@,
        RuntimeMetric::InjectionQueueDepth => "The number of tasks currently scheduled in the runtime's injection queue"@,
        RuntimeMetric::LocalQueueDepth => "The total number of tasks currently scheduled in workers' local queues"@,
        RuntimeMetric::MeanPollsPerPark => "The mean number of polls per park"@,
        RuntimeMetric::BusyRatio => "The proportion of time spent polling for tasks"@,
    }
}

/// The Prometheus type of a runtime metric.
pub open spec fn runtime_metric_type(m: RuntimeMetric) -> MetricType {
    match m {
        RuntimeMetric::WorkersCount => MetricType::Gauge,
        RuntimeMetric::ParkCount => MetricType::Counter,
        RuntimeMetric::NoopCount => MetricType::Counter,
        RuntimeMetric::StealCount => MetricType::Counter,
        RuntimeMetric::RemoteScheduleCount => MetricType::Counter,
        RuntimeMetric::LocalScheduleCount => MetricType::Counter,
        RuntimeMetric::OverflowCount => MetricType::Counter,
        RuntimeMetric::PollsCount => MetricType::Counter,
        RuntimeMetric::BusyDuration => MetricType::Counter,
        RuntimeMetric::InjectionQueueDepth => MetricType::Gauge,
        RuntimeMetric::LocalQueueDepth => MetricType::Counter,
        RuntimeMetric::MeanPollsPerPark => MetricType::Gauge,
        RuntimeMetric::BusyRatio => MetricType::Gauge,
    }
}

/// Whether encoding this metric first refreshes the shared metrics. Only the
/// worker count does so, and it is registered first, so that one encoding of
/// the registry reads one fresh interval.
pub open spec fn runtime_metric_refreshes(m: RuntimeMetric) -> bool {
    m == RuntimeMetric::WorkersCount
}

/// The samples that a runtime metric reports from the accumulated metrics `s`.
pub open spec fn runtime_samples(m: RuntimeMetric, s: RuntimeSnapshot) -> Seq<Sample> {
    match m {
        RuntimeMetric::WorkersCount => seq![unlabelled(SampleValue::Count(s.workers_count as u64))],
        RuntimeMetric::ParkCount => min_max_total(
                SampleValue::Count(s.min_park_count),
                SampleValue::Count(s.max_park_count),
                SampleValue::Count(s.total_park_count),
            ),
        RuntimeMetric::NoopCount => min_max_total(
                SampleValue::Count(s.min_noop_count),
                SampleValue::Count(s.max_noop_count),
                SampleValue::Count(s.total_noop_count),
            ),
        RuntimeMetric::StealCount => min_max_total(
                SampleValue::Count(s.min_steal_count),
                SampleValue::Count(s.max_steal_count),
                SampleValue::Count(s.total_steal_count),
            ),
        RuntimeMetric::RemoteScheduleCount => seq![unlabelled(SampleValue::Count(s.num_remote_schedules))],
        RuntimeMetric::LocalScheduleCount => min_max_total(
                SampleValue::Count(s.min_local_schedule_count),
                SampleValue::Count(s.max_local_schedule_count),
                SampleValue::Count(s.total_local_schedule_count),
            ),
        RuntimeMetric::OverflowCount => min_max_total(
                SampleValue::Count(s.min_overflow_count),
                SampleValue::Count(s.max_overflow_count),
                SampleValue::Count(s.total_overflow_count),
            ),
        RuntimeMetric::PollsCount => min_max_total(
                SampleValue::Count(s.min_polls_count),
                SampleValue::Count(s.max_polls_count),
                SampleValue::Count(s.total_polls_count),
            ),
        RuntimeMetric::BusyDuration => min_max_total(
                SampleValue::Seconds(s.min_busy_duration_nanos),
                SampleValue::Seconds(s.max_busy_duration_nanos),
                SampleValue::Seconds(s.total_busy_duration_nanos),
            ),
        RuntimeMetric::InjectionQueueDepth => seq![unlabelled(SampleValue::Count(s.injection_queue_depth as u64))],
        RuntimeMetric::LocalQueueDepth => min_max_total(
                SampleValue::Count(s.min_local_queue_depth as u64),
                SampleValue::Count(s.max_local_queue_depth as u64),
                SampleValue::Count(s.total_local_queue_depth as u64),
            ),
        RuntimeMetric::MeanPollsPerPark => seq![unlabelled(SampleValue::PollsPerPark { polls: s.total_polls_count, parks: s.total_park_count, noops: s.total_noop_count })],
        RuntimeMetric::BusyRatio => seq![unlabelled(SampleValue::BusyRatio { busy_nanos: s.total_busy_duration_nanos, elapsed_nanos: s.elapsed_nanos })],
    }
}

/// The order in which a runtime collector registers its metrics.
pub open spec fn runtime_registration_order() -> Seq<RuntimeMetric> {
    seq![
        RuntimeMetric::WorkersCount,
        RuntimeMetric::ParkCount,
        RuntimeMetric::NoopCount,
        RuntimeMetric::StealCount,
        RuntimeMetric::RemoteScheduleCount,
        RuntimeMetric::LocalScheduleCount,
        RuntimeMetric::OverflowCount,
        RuntimeMetric::PollsCount,
        RuntimeMetric::BusyDuration,
        RuntimeMetric::InjectionQueueDepth,
        RuntimeMetric::LocalQueueDepth,
        RuntimeMetric::MeanPollsPerPark,
        RuntimeMetric::BusyRatio,
    ]
}

impl RuntimeMetric {
    /// The name under which this metric is registered.
    pub fn name(&self) -> (r: &'static str)
        ensures
            r@ == runtime_metric_name(*self),
    {
        match self {
            RuntimeMetric::WorkersCount => "workers_count",
            RuntimeMetric::ParkCount => "park_count",
            RuntimeMetric::NoopCount => "noop_count",
            RuntimeMetric::StealCount => "steal_count",
            RuntimeMetric::RemoteScheduleCount => "remote_schedule_count",
            RuntimeMetric::LocalScheduleCount => "local_schedule_count",
            RuntimeMetric::OverflowCount => "overflow_count",
            RuntimeMetric::PollsCount => "polls_count",
            RuntimeMetric::BusyDuration => "busy_duration_seconds",
            RuntimeMetric::InjectionQueueDepth => "injection_queue_depth",
            RuntimeMetric::LocalQueueDepth => "local_queue_depth",
            RuntimeMetric::MeanPollsPerPark => "mean_polls_per_park",
            RuntimeMetric::BusyRatio => "busy_ratio",
        }
    }

    /// The help text under which this metric is registered.
    pub fn description(&self) -> (r: &'static str)
        ensures
            r@ == runtime_metric_description(*self),
    {
        match self {
            RuntimeMetric::WorkersCount => "The number of worker threads",
            RuntimeMetric::ParkCount => "The number of times worker threads parked",
            RuntimeMetric::NoopCount => "The number of times worker threads unparked but performed no work before parking again",
            RuntimeMetric::StealCount => "The number of times worker threads stole tasks from another worker thread",
            RuntimeMetric::RemoteScheduleCount => "The number of tasks scheduled from **outside** of the runtime",
            RuntimeMetric::LocalScheduleCount => "The number of tasks scheduled from worker threads",
            RuntimeMetric::OverflowCount => "The number of times worker threads saturated their local queues",
            RuntimeMetric::PollsCount => "The number of tasks that have been polled across all worker threads",
            RuntimeMetric::BusyDuration => "The amount of time worker threads were busy",
            RuntimeMetric::InjectionQueueDepth => "The number of tasks currently scheduled in the runtime's injection queue",
            RuntimeMetric::LocalQueueDepth => "The total number of tasks currently scheduled in workers' local queues",
            RuntimeMetric::MeanPollsPerPark => "The mean number of polls per park",
            RuntimeMetric::BusyRatio => "The proportion of time spent polling for tasks",
        }
    }

    /// The Prometheus type of this metric.
    pub fn metric_type(&self) -> (r: MetricType)
        ensures
            r == runtime_metric_type(*self),
    {
        match self {
            RuntimeMetric::WorkersCount => MetricType::Gauge,
            RuntimeMetric::ParkCount => MetricType::Counter,
            RuntimeMetric::NoopCount => MetricType::Counter,
            RuntimeMetric::StealCount => MetricType::Counter,
            RuntimeMetric::RemoteScheduleCount => MetricType::Counter,
            RuntimeMetric::LocalScheduleCount => MetricType::Counter,
            RuntimeMetric::OverflowCount => MetricType::Counter,
            RuntimeMetric::PollsCount => MetricType::Counter,
            RuntimeMetric::BusyDuration => MetricType::Counter,
            RuntimeMetric::InjectionQueueDepth => MetricType::Gauge,
            RuntimeMetric::LocalQueueDepth => MetricType::Counter,
            RuntimeMetric::MeanPollsPerPark => MetricType::Gauge,
            RuntimeMetric::BusyRatio => MetricType::Gauge,
        }
    }

    /// Whether encoding this metric first refreshes the shared metrics.
    pub fn refreshes(&self) -> (r: bool)
        ensures
            r == runtime_metric_refreshes(*self),
    {
        match self {
            RuntimeMetric::WorkersCount => true,
            _ => false,
        }
    }

    /// The samples that this metric reports from the accumulated metrics `s`.
    pub fn samples(&self, s: &RuntimeSnapshot) -> (r: Vec<Sample>)
        ensures
            r@ == runtime_samples(*self, *s),
    {
        match self {
            RuntimeMetric::WorkersCount => single(SampleValue::Count(s.workers_count as u64)),
            RuntimeMetric::ParkCount => triple(
                    SampleValue::Count(s.min_park_count),
                    SampleValue::Count(s.max_park_count),
                    SampleValue::Count(s.total_park_count),
                ),
            RuntimeMetric::NoopCount => triple(
                    SampleValue::Count(s.min_noop_count),
                    SampleValue::Count(s.max_noop_count),
                    SampleValue::Count(s.total_noop_count),
                ),
            RuntimeMetric::StealCount => triple(
                    SampleValue::Count(s.min_steal_count),
                    SampleValue::Count(s.max_steal_count),
                    SampleValue::Count(s.total_steal_count),
                ),
            RuntimeMetric::RemoteScheduleCount => single(SampleValue::Count(s.num_remote_schedules)),
            RuntimeMetric::LocalScheduleCount => triple(
                    SampleValue::Count(s.min_local_schedule_count),
                    SampleValue::Count(s.max_local_schedule_count),
                    SampleValue::Count(s.total_local_schedule_count),
                ),
            RuntimeMetric::OverflowCount => triple(
                    SampleValue::Count(s.min_overflow_count),
                    SampleValue::Count(s.max_overflow_count),
                    SampleValue::Count(s.total_overflow_count),
                ),
            RuntimeMetric::PollsCount => triple(
                    SampleValue::Count(s.min_polls_count),
                    SampleValue::Count(s.max_polls_count),
                    SampleValue::Count(s.total_polls_count),
                ),
            RuntimeMetric::BusyDuration => triple(
                    SampleValue::Seconds(s.min_busy_duration_nanos),
                    SampleValue::Seconds(s.max_busy_duration_nanos),
                    SampleValue::Seconds(s.total_busy_duration_nanos),
                ),
            RuntimeMetric::InjectionQueueDepth => single(SampleValue::Count(s.injection_queue_depth as u64)),
            RuntimeMetric::LocalQueueDepth => triple(
                    SampleValue::Count(s.min_local_queue_depth as u64),
                    SampleValue::Count(s.max_local_queue_depth as u64),
                    SampleValue::Count(s.total_local_queue_depth as u64),
                ),
            RuntimeMetric::MeanPollsPerPark => single(SampleValue::PollsPerPark { polls: s.total_polls_count, parks: s.total_park_count, noops: s.total_noop_count }),
            RuntimeMetric::BusyRatio => single(SampleValue::BusyRatio { busy_nanos: s.total_busy_duration_nanos, elapsed_nanos: s.elapsed_nanos }),
        }
    }
}

/// A Prometheus collector for a tokio runtime: the metrics accumulated from
/// the intervals of a runtime monitor, shared by all the metrics it registers.
///
/// Its state is described by three spec functions: the accumulated metrics
/// (`state`), the first interval it was created from (`first_interval`) and the
/// intervals it has accumulated since, in order (`later_intervals`), which it
/// keeps as ghost state.
#[must_use]
pub struct RuntimeCollector {
    cached: CachedMonitor,
    intervals: Ghost<(RuntimeSnapshot, Seq<RuntimeSnapshot>)>,
}

impl RuntimeCollector {
    /// The accumulated metrics.
    pub closed spec fn state(&self) -> RuntimeSnapshot {
        self.cached@
    }

    /// The accumulated metrics are those of the intervals seen, and each of
    /// those intervals could be accumulated in its turn.
    #[verifier::type_invariant]
    closed spec fn well_formed(&self) -> bool {
        &&& self.cached@ == accumulate_all(self.intervals@.0, self.intervals@.1)
        &&& each_step_fits(self.intervals@.0, self.intervals@.1)
    }

    /// The interval that the collector was created from.
    pub closed spec fn first_interval(&self) -> RuntimeSnapshot {
        self.intervals@.0
    }

    /// The intervals accumulated since the collector was created, in order.
    pub closed spec fn later_intervals(&self) -> Seq<RuntimeSnapshot> {
        self.intervals@.1
    }

    /// Creates a collector from the first interval of a runtime monitor.
    pub fn new(first: RuntimeSnapshot) -> (r: Self)
        ensures
            r.state() == first,
            r.first_interval() == first,
            r.later_intervals() == Seq::<RuntimeSnapshot>::empty(),
    {
        RuntimeCollector {
            cached: CachedMonitor::new(first),
            intervals: Ghost((first, Seq::empty())),
        }
    }

    /// The metrics of this collector, in the order in which they are registered.
    pub fn metrics(&self) -> (r: Vec<RuntimeMetric>)
        ensures
            r@ == runtime_registration_order(),
    {
        vec![
            RuntimeMetric::WorkersCount,
            RuntimeMetric::ParkCount,
            RuntimeMetric::NoopCount,
            RuntimeMetric::StealCount,
            RuntimeMetric::RemoteScheduleCount,
            RuntimeMetric::LocalScheduleCount,
            RuntimeMetric::OverflowCount,
            RuntimeMetric::PollsCount,
            RuntimeMetric::BusyDuration,
            RuntimeMetric::InjectionQueueDepth,
            RuntimeMetric::LocalQueueDepth,
            RuntimeMetric::MeanPollsPerPark,
            RuntimeMetric::BusyRatio,
        ]
    }

    /// Tests whether the next interval can be accumulated.
    pub fn can_refresh(&self, next: &RuntimeSnapshot) -> (r: bool)
        ensures
            r == fits_accumulation(self.state(), *next),
    {
        can_accumulate(self.cached.get(), next)
    }

    /// Accumulates the next interval of the runtime monitor.
    pub fn refresh(&mut self, next: RuntimeSnapshot)
        requires
            fits_accumulation(old(self).state(), next),
        ensures
            final(self).state() == accumulated(old(self).state(), next),
            final(self).first_interval() == old(self).first_interval(),
            final(self).later_intervals() == old(self).later_intervals().push(next),
            final(self).state() == accumulate_all(final(self).first_interval(), final(self).later_intervals()),
    {
        proof {
            use_type_invariant(&*self);
        }
        let ghost (first, rest) = self.intervals@;
        let ghost later = rest.push(next);
        proof {
            lemma_accumulate_one_more(first, rest, next);
        }
        let mut cached = CachedMonitor::new(*self.cached.get());
        cached.refresh(next);
        *self = RuntimeCollector { cached, intervals: Ghost((first, later)) };
    }

    /// The accumulated metrics: those of the first interval and of the later
    /// ones, each of which could be accumulated in its turn.
    pub fn get(&self) -> (r: &RuntimeSnapshot)
        ensures
            *r == self.state(),
            *r == accumulate_all(self.first_interval(), self.later_intervals()),
            each_step_fits(self.first_interval(), self.later_intervals()),
    {
        proof {
            use_type_invariant(self);
        }
        self.cached.get()
    }

    /// The samples that `metric` reports now.
    pub fn samples(&self, metric: RuntimeMetric) -> (r: Vec<Sample>)
        ensures
            r@ == runtime_samples(metric, self.state()),
            r@ == runtime_samples(
                metric,
                accumulate_all(self.first_interval(), self.later_intervals()),
            ),
    {
        proof {
            use_type_invariant(self);
        }
        metric.samples(self.cached.get())
    }
}

/// Accumulating one more interval extends the fold by that interval, and keeps
/// every step within range.
proof fn lemma_accumulate_one_more(
    first: RuntimeSnapshot,
    rest: Seq<RuntimeSnapshot>,
    next: RuntimeSnapshot,
)
    requires
        each_step_fits(first, rest),
        fits_accumulation(accumulate_all(first, rest), next),
    ensures
        accumulate_all(first, rest.push(next)) == accumulated(accumulate_all(first, rest), next),
        each_step_fits(first, rest.push(next)),
{
    let later = rest.push(next);
    assert(later.drop_last() =~= rest);
    assert forall|i: int| 0 <= i < later.len() implies fits_accumulation(
        accumulate_all(first, later.take(i)),
        #[trigger] later[i],
    ) by {
        if i < rest.len() {
            assert(later.take(i) =~= rest.take(i));
            assert(later[i] == rest[i]);
        } else {
            assert(later.take(i) =~= rest);
        }
    }
}

/// Law: of the metrics in registration order, the first one, and only it,
/// refreshes the shared metrics when it is encoded.
pub proof fn lemma_only_first_metric_refreshes()
    ensures
        runtime_registration_order().len() > 0,
        runtime_metric_refreshes(runtime_registration_order()[0]),
        forall|i: int|
            0 < i < runtime_registration_order().len() ==> !runtime_metric_refreshes(
                #[trigger] runtime_registration_order()[i],
            ),
{
}

/// Law: a runtime collector registers every runtime metric, each once.
pub proof fn lemma_registration_covers_each_metric_once(m: RuntimeMetric)
    ensures
        runtime_registration_order().contains(m),
        forall|i: int, j: int|
            0 <= i < j < runtime_registration_order().len() ==> runtime_registration_order()[i]
                != runtime_registration_order()[j],
{
    let order = runtime_registration_order();
    let i: int = match m {
        RuntimeMetric::WorkersCount => 0,
        RuntimeMetric::ParkCount => 1,
        RuntimeMetric::NoopCount => 2,
        RuntimeMetric::StealCount => 3,
        RuntimeMetric::RemoteScheduleCount => 4,
        RuntimeMetric::LocalScheduleCount => 5,
        RuntimeMetric::OverflowCount => 6,
        RuntimeMetric::PollsCount => 7,
        RuntimeMetric::BusyDuration => 8,
        RuntimeMetric::InjectionQueueDepth => 9,
        RuntimeMetric::LocalQueueDepth => 10,
        RuntimeMetric::MeanPollsPerPark => 11,
        RuntimeMetric::BusyRatio => 12,
    };
    assert(order[i] == m);
}

/// Law: no two runtime metrics are registered under the same name.
pub proof fn lemma_runtime_metric_names_distinct(a: RuntimeMetric, b: RuntimeMetric)
    requires
        a != b,
    ensures
        runtime_metric_name(a) != runtime_metric_name(b),
{
    reveal_strlit("workers_count");
    reveal_strlit("park_count");
    reveal_strlit("noop_count");
    reveal_strlit("steal_count");
    reveal_strlit("remote_schedule_count");
    reveal_strlit("local_schedule_count");
    reveal_strlit("overflow_count");
    reveal_strlit("polls_count");
    reveal_strlit("busy_duration_seconds");
    reveal_strlit("injection_queue_depth");
    reveal_strlit("local_queue_depth");
    reveal_strlit("mean_polls_per_park");
    reveal_strlit("busy_ratio");
    let na = runtime_metric_name(a);
    let nb = runtime_metric_name(b);
    if na.len() == nb.len() {
        assert(na[0] != nb[0] || na[1] != nb[1] || na[2] != nb[2] || na[3] != nb[3]);
    }
}

/// The counters, durations, queue depths and the elapsed time of a snapshot,
/// in a fixed order.
pub open spec fn counter_values(s: RuntimeSnapshot) -> Seq<int> {
    seq![
        s.total_park_count as int,
        s.max_park_count as int,
        s.min_park_count as int,
        s.total_noop_count as int,
        s.max_noop_count as int,
        s.min_noop_count as int,
        s.total_steal_count as int,
        s.max_steal_count as int,
        s.min_steal_count as int,
        s.num_remote_schedules as int,
        s.total_local_schedule_count as int,
        s.max_local_schedule_count as int,
        s.min_local_schedule_count as int,
        s.total_overflow_count as int,
        s.max_overflow_count as int,
        s.min_overflow_count as int,
        s.total_polls_count as int,
        s.max_polls_count as int,
        s.min_polls_count as int,
        s.total_busy_duration_nanos as int,
        s.max_busy_duration_nanos as int,
        s.min_busy_duration_nanos as int,
        s.total_local_queue_depth as int,
        s.max_local_queue_depth as int,
        s.min_local_queue_depth as int,
        s.elapsed_nanos as int,
    ]
}

/// The gauges of a snapshot: the worker count and the injection queue depth.
pub open spec fn gauge_values(s: RuntimeSnapshot) -> Seq<int> {
    seq![s.workers_count as int, s.injection_queue_depth as int]
}

/// Two sequences of values added element by element.
pub open spec fn add_values(a: Seq<int>, b: Seq<int>) -> Seq<int> {
    Seq::new(a.len(), |i: int| a[i] + b[i])
}

/// The state of a collector created from `first` after it has accumulated
/// each interval of `rest`, in order.
pub open spec fn accumulate_all(first: RuntimeSnapshot, rest: Seq<RuntimeSnapshot>) -> RuntimeSnapshot
    decreases rest.len(),
{
    if rest.len() == 0 {
        first
    } else {
        accumulated(accumulate_all(first, rest.drop_last()), rest.last())
    }
}

/// The counters of `first` and of each interval of `rest`, summed.
pub open spec fn summed_counters(first: RuntimeSnapshot, rest: Seq<RuntimeSnapshot>) -> Seq<int>
    decreases rest.len(),
{
    if rest.len() == 0 {
        counter_values(first)
    } else {
        add_values(summed_counters(first, rest.drop_last()), counter_values(rest.last()))
    }
}

/// Whether each interval of `rest` could be accumulated in its turn.
pub open spec fn each_step_fits(first: RuntimeSnapshot, rest: Seq<RuntimeSnapshot>) -> bool {
    forall|i: int|
        0 <= i < rest.len() ==> fits_accumulation(
            accumulate_all(first, rest.take(i)),
            #[trigger] rest[i],
        )
}

/// Law: a refresh never lowers a counter, a duration or a queue depth, and no
/// sample of a metric of type counter goes down.
pub proof fn lemma_refresh_never_lowers_counters(current: RuntimeSnapshot, next: RuntimeSnapshot)
    requires
        counter_sums_fit(current, next),
    ensures
        counters_grow(current, accumulated(current, next)),
        forall|m: RuntimeMetric, i: int|
            runtime_metric_type(m) == MetricType::Counter && 0 <= i < runtime_samples(
                m,
                current,
            ).len() ==> amount(runtime_samples(m, current)[i].value) <= amount(
                #[trigger] runtime_samples(m, accumulated(current, next))[i].value,
            ),
{
    assert forall|m: RuntimeMetric, i: int|
        runtime_metric_type(m) == MetricType::Counter && 0 <= i < runtime_samples(
            m,
            current,
        ).len() implies amount(runtime_samples(m, current)[i].value) <= amount(
        #[trigger] runtime_samples(m, accumulated(current, next))[i].value,
    ) by {
        assert(i == 0 || i == 1 || i == 2);
    }
}

/// Law: after a collector created from `first` has accumulated the intervals
/// of `rest`, each counter, duration and queue depth it holds, and its elapsed
/// time, is the sum of that value over `first` and all of `rest`, and each
/// gauge is that of the latest interval.
pub proof fn lemma_counters_sum_gauges_latest(first: RuntimeSnapshot, rest: Seq<RuntimeSnapshot>)
    requires
        each_step_fits(first, rest),
    ensures
        counter_values(accumulate_all(first, rest)) == summed_counters(first, rest),
        gauge_values(accumulate_all(first, rest)) == gauge_values(
            if rest.len() == 0 { first } else { rest.last() },
        ),
    decreases rest.len(),
{
    if rest.len() > 0 {
        let prefix = rest.drop_last();
        lemma_prefix_steps_fit(first, rest);
        lemma_counters_sum_gauges_latest(first, prefix);
        let before = accumulate_all(first, prefix);
        assert(counter_values(accumulated(before, rest.last())) =~= add_values(
            counter_values(before),
            counter_values(rest.last()),
        ));
    }
}

/// Whether a runtime metric reports a minimum, a maximum and a total across
/// the workers.
pub open spec fn reports_min_max_total(m: RuntimeMetric) -> bool {
    ||| m == RuntimeMetric::ParkCount
    ||| m == RuntimeMetric::NoopCount
    ||| m == RuntimeMetric::StealCount
    ||| m == RuntimeMetric::LocalScheduleCount
    ||| m == RuntimeMetric::OverflowCount
    ||| m == RuntimeMetric::PollsCount
    ||| m == RuntimeMetric::BusyDuration
    ||| m == RuntimeMetric::LocalQueueDepth
}

/// Law: a metric that reports a minimum, a maximum and a total gives three
/// samples, labelled `min`, `max` and `total` in that order; every other
/// runtime metric gives one sample without a `measurement` label.
pub proof fn lemma_runtime_sample_labels(m: RuntimeMetric, s: RuntimeSnapshot)
    ensures
        reports_min_max_total(m) ==> {
            let r = runtime_samples(m, s);
            &&& r.len() == 3
            &&& r[0].measurement == Some(Measurement::Min)
            &&& r[1].measurement == Some(Measurement::Max)
            &&& r[2].measurement == Some(Measurement::Total)
        },
        !reports_min_max_total(m) ==> {
            let r = runtime_samples(m, s);
            &&& r.len() == 1
            &&& r[0].measurement is None
        },
{
}

/// Whether the busy time of a snapshot is at most its elapsed time, as on a
/// runtime with a single worker, whose busy time is that worker's.
pub open spec fn busy_within_elapsed(s: RuntimeSnapshot) -> bool {
    s.total_busy_duration_nanos <= s.elapsed_nanos
}

/// Law: where every interval's busy time is at most its elapsed time (as on a
/// single-worker runtime), the busy ratio reports a busy time at most its
/// elapsed time, so that the ratio stays within [0, 1].
pub proof fn lemma_busy_ratio_at_most_one(first: RuntimeSnapshot, rest: Seq<RuntimeSnapshot>)
    requires
        each_step_fits(first, rest),
        busy_within_elapsed(first),
        forall|i: int| 0 <= i < rest.len() ==> busy_within_elapsed(#[trigger] rest[i]),
    ensures
        busy_within_elapsed(accumulate_all(first, rest)),
        runtime_samples(RuntimeMetric::BusyRatio, accumulate_all(first, rest))[0].value matches
            SampleValue::BusyRatio { busy_nanos, elapsed_nanos } && busy_nanos <= elapsed_nanos,
    decreases rest.len(),
{
    if rest.len() > 0 {
        let prefix = rest.drop_last();
        lemma_prefix_steps_fit(first, rest);
        lemma_busy_ratio_at_most_one(first, prefix);
        assert(busy_within_elapsed(rest[rest.len() - 1]));
    }
}

/// Each step of the intervals but the last fits where each step of them all
/// does, and the last one fits after the others.
proof fn lemma_prefix_steps_fit(first: RuntimeSnapshot, rest: Seq<RuntimeSnapshot>)
    requires
        each_step_fits(first, rest),
        rest.len() > 0,
    ensures
        each_step_fits(first, rest.drop_last()),
        fits_accumulation(accumulate_all(first, rest.drop_last()), rest.last()),
{
    let prefix = rest.drop_last();
    assert forall|i: int| 0 <= i < prefix.len() implies fits_accumulation(
        accumulate_all(first, prefix.take(i)),
        #[trigger] prefix[i],
    ) by {
        assert(prefix.take(i) =~= rest.take(i));
        assert(rest[i] == prefix[i]);
    }
    assert(rest.take(rest.len() - 1) =~= prefix);
    assert(fits_accumulation(accumulate_all(first, prefix), rest[rest.len() - 1]));
}

/// Whether, in each group of a minimum, a maximum and a total, the minimum is
/// at most the maximum and the maximum at most the total.
pub open spec fn min_max_total_in_order(s: RuntimeSnapshot) -> bool {
    &&& s.min_park_count <= s.max_park_count <= s.total_park_count
    &&& s.min_noop_count <= s.max_noop_count <= s.total_noop_count
    &&& s.min_steal_count <= s.max_steal_count <= s.total_steal_count
    &&& s.min_local_schedule_count <= s.max_local_schedule_count <= s.total_local_schedule_count
    &&& s.min_overflow_count <= s.max_overflow_count <= s.total_overflow_count
    &&& s.min_polls_count <= s.max_polls_count <= s.total_polls_count
    &&& s.min_busy_duration_nanos <= s.max_busy_duration_nanos <= s.total_busy_duration_nanos
    &&& s.min_local_queue_depth <= s.max_local_queue_depth <= s.total_local_queue_depth
}

/// The amount of a count or a duration; zero for the ratios.
pub open spec fn amount(v: SampleValue) -> int {
    match v {
        SampleValue::Count(c) => c as int,
        SampleValue::Seconds(n) => n as int,
        _ => 0,
    }
}

/// Whether each interval of `rest` could be accumulated in its turn without a
/// counter, duration or queue depth leaving its range (the elapsed time aside).
pub open spec fn each_step_counters_fit(first: RuntimeSnapshot, rest: Seq<RuntimeSnapshot>) -> bool {
    forall|i: int|
        0 <= i < rest.len() ==> counter_sums_fit(
            accumulate_all(first, rest.take(i)),
            #[trigger] rest[i],
        )
}

/// Each step of the intervals but the last keeps the counters in range where
/// each step of them all does, and so does the last one after the others.
proof fn lemma_prefix_counter_steps_fit(first: RuntimeSnapshot, rest: Seq<RuntimeSnapshot>)
    requires
        each_step_counters_fit(first, rest),
        rest.len() > 0,
    ensures
        each_step_counters_fit(first, rest.drop_last()),
        counter_sums_fit(accumulate_all(first, rest.drop_last()), rest.last()),
{
    let prefix = rest.drop_last();
    assert forall|i: int| 0 <= i < prefix.len() implies counter_sums_fit(
        accumulate_all(first, prefix.take(i)),
        #[trigger] prefix[i],
    ) by {
        assert(prefix.take(i) =~= rest.take(i));
        assert(rest[i] == prefix[i]);
    }
    assert(rest.take(rest.len() - 1) =~= prefix);
    assert(counter_sums_fit(accumulate_all(first, prefix), rest[rest.len() - 1]));
}

/// Law: one accumulation keeps each minimum at most its maximum and each
/// maximum at most its total, where both the current and the new metrics do.
pub proof fn lemma_accumulation_keeps_min_max_total_in_order(
    current: RuntimeSnapshot,
    new: RuntimeSnapshot,
)
    requires
        counter_sums_fit(current, new),
        min_max_total_in_order(current),
        min_max_total_in_order(new),
    ensures
        min_max_total_in_order(accumulated(current, new)),
{
}

/// The accumulated state keeps each minimum at most its maximum and each
/// maximum at most its total, where every interval does.
proof fn lemma_fold_keeps_min_max_total_in_order(first: RuntimeSnapshot, rest: Seq<RuntimeSnapshot>)
    requires
        each_step_counters_fit(first, rest),
        min_max_total_in_order(first),
        forall|i: int| 0 <= i < rest.len() ==> min_max_total_in_order(#[trigger] rest[i]),
    ensures
        min_max_total_in_order(accumulate_all(first, rest)),
    decreases rest.len(),
{
    if rest.len() > 0 {
        let prefix = rest.drop_last();
        lemma_prefix_counter_steps_fit(first, rest);
        assert forall|i: int| 0 <= i < prefix.len() implies min_max_total_in_order(
            #[trigger] prefix[i],
        ) by {
            assert(prefix[i] == rest[i]);
        }
        lemma_fold_keeps_min_max_total_in_order(first, prefix);
        assert(min_max_total_in_order(rest[rest.len() - 1]));
        lemma_accumulation_keeps_min_max_total_in_order(accumulate_all(first, prefix), rest.last());
    }
}

/// Law: where every interval keeps each minimum at most its maximum and each
/// maximum at most its total, so does the accumulated state, and every metric
/// that reports a minimum, a maximum and a total reports them in that order of
/// size.
pub proof fn lemma_min_max_total_stay_in_order(first: RuntimeSnapshot, rest: Seq<RuntimeSnapshot>)
    requires
        each_step_counters_fit(first, rest),
        min_max_total_in_order(first),
        forall|i: int| 0 <= i < rest.len() ==> min_max_total_in_order(#[trigger] rest[i]),
    ensures
        min_max_total_in_order(accumulate_all(first, rest)),
        forall|m: RuntimeMetric|
            reports_min_max_total(m) ==> {
                let r = #[trigger] runtime_samples(m, accumulate_all(first, rest));
                amount(r[0].value) <= amount(r[1].value) <= amount(r[2].value)
            },
{
    lemma_fold_keeps_min_max_total_in_order(first, rest);
    lemma_samples_in_order(accumulate_all(first, rest));
}

/// Metrics that report a minimum, a maximum and a total report them in that
/// order of size, where the metrics keep each group in order.
proof fn lemma_samples_in_order(s: RuntimeSnapshot)
    requires
        min_max_total_in_order(s),
    ensures
        forall|m: RuntimeMetric|
            reports_min_max_total(m) ==> {
                let r = #[trigger] runtime_samples(m, s);
                amount(r[0].value) <= amount(r[1].value) <= amount(r[2].value)
            },
{
}

/// Law: after a collector created from `first` has accumulated the intervals
/// of `rest`, each metric reports the sums over all of them (`c`, in the order
/// of `counter_values`: for each of park, noop, steal, local schedule,
/// overflow, polls, busy duration and local queue depth the total, the maximum
/// and the minimum, with the remote schedules after steal, and the elapsed time
/// last), and the gauges of the latest interval (`g`).
#[verifier::rlimit(50)]
pub proof fn lemma_samples_report_sums(first: RuntimeSnapshot, rest: Seq<RuntimeSnapshot>)
    requires
        each_step_fits(first, rest),
    ensures
        ({
            let s = accumulate_all(first, rest);
            let c = summed_counters(first, rest);
            let g = gauge_values(if rest.len() == 0 { first } else { rest.last() });
            &&& runtime_samples(RuntimeMetric::WorkersCount, s) == seq![
                unlabelled(SampleValue::Count(g[0] as u64)),
            ]
            &&& runtime_samples(RuntimeMetric::ParkCount, s) == min_max_total(
                SampleValue::Count(c[2] as u64),
                SampleValue::Count(c[1] as u64),
                SampleValue::Count(c[0] as u64),
            )
            &&& runtime_samples(RuntimeMetric::NoopCount, s) == min_max_total(
                SampleValue::Count(c[5] as u64),
                SampleValue::Count(c[4] as u64),
                SampleValue::Count(c[3] as u64),
            )
            &&& runtime_samples(RuntimeMetric::StealCount, s) == min_max_total(
                SampleValue::Count(c[8] as u64),
                SampleValue::Count(c[7] as u64),
                SampleValue::Count(c[6] as u64),
            )
            &&& runtime_samples(RuntimeMetric::RemoteScheduleCount, s) == seq![
                unlabelled(SampleValue::Count(c[9] as u64)),
            ]
            &&& runtime_samples(RuntimeMetric::LocalScheduleCount, s) == min_max_total(
                SampleValue::Count(c[12] as u64),
                SampleValue::Count(c[11] as u64),
                SampleValue::Count(c[10] as u64),
            )
            &&& runtime_samples(RuntimeMetric::OverflowCount, s) == min_max_total(
                SampleValue::Count(c[15] as u64),
                SampleValue::Count(c[14] as u64),
                SampleValue::Count(c[13] as u64),
            )
            &&& runtime_samples(RuntimeMetric::PollsCount, s) == min_max_total(
                SampleValue::Count(c[18] as u64),
                SampleValue::Count(c[17] as u64),
                SampleValue::Count(c[16] as u64),
            )
            &&& runtime_samples(RuntimeMetric::BusyDuration, s) == min_max_total(
                SampleValue::Seconds(c[21] as u128),
                SampleValue::Seconds(c[20] as u128),
                SampleValue::Seconds(c[19] as u128),
            )
            &&& runtime_samples(RuntimeMetric::InjectionQueueDepth, s) == seq![
                unlabelled(SampleValue::Count(g[1] as u64)),
            ]
            &&& runtime_samples(RuntimeMetric::LocalQueueDepth, s) == min_max_total(
                SampleValue::Count(c[24] as u64),
                SampleValue::Count(c[23] as u64),
                SampleValue::Count(c[22] as u64),
            )
            &&& runtime_samples(RuntimeMetric::MeanPollsPerPark, s) == seq![
                unlabelled(
                    SampleValue::PollsPerPark {
                        polls: c[16] as u64,
                        parks: c[0] as u64,
                        noops: c[3] as u64,
                    },
                ),
            ]
            &&& runtime_samples(RuntimeMetric::BusyRatio, s) == seq![
                unlabelled(
                    SampleValue::BusyRatio {
                        busy_nanos: c[19] as u128,
                        elapsed_nanos: c[25] as u128,
                    },
                ),
            ]
        }),
{
    lemma_counters_sum_gauges_latest(first, rest);
    let s = accumulate_all(first, rest);
    let c = summed_counters(first, rest);
    assert(counter_values(s) == c);
    let g = gauge_values(if rest.len() == 0 { first } else { rest.last() });
    assert(g[0] == s.workers_count as int);
    assert(g[1] == s.injection_queue_depth as int);
    assert(c[0] == s.total_park_count as int);
    assert(c[1] == s.max_park_count as int);
    assert(c[2] == s.min_park_count as int);
    assert(c[3] == s.total_noop_count as int);
    assert(c[4] == s.max_noop_count as int);
    assert(c[5] == s.min_noop_count as int);
    assert(c[6] == s.total_steal_count as int);
    assert(c[7] == s.max_steal_count as int);
    assert(c[8] == s.min_steal_count as int);
    assert(c[9] == s.num_remote_schedules as int);
    assert(c[10] == s.total_local_schedule_count as int);
    assert(c[11] == s.max_local_schedule_count as int);
    assert(c[12] == s.min_local_schedule_count as int);
    assert(c[13] == s.total_overflow_count as int);
    assert(c[14] == s.max_overflow_count as int);
    assert(c[15] == s.min_overflow_count as int);
    assert(c[16] == s.total_polls_count as int);
    assert(c[17] == s.max_polls_count as int);
    assert(c[18] == s.min_polls_count as int);
    assert(c[19] == s.total_busy_duration_nanos as int);
    assert(c[20] == s.max_busy_duration_nanos as int);
    assert(c[21] == s.min_busy_duration_nanos as int);
    assert(c[22] == s.total_local_queue_depth as int);
    assert(c[23] == s.max_local_queue_depth as int);
    assert(c[24] == s.min_local_queue_depth as int);
    assert(c[25] == s.elapsed_nanos as int);
}

/// Law: the name, help text and Prometheus type of every runtime metric.
pub proof fn lemma_runtime_metric_table()
    ensures
        runtime_metric_name(RuntimeMetric::WorkersCount) == "workers_count"@,
        runtime_metric_description(RuntimeMetric::WorkersCount) == "The number of worker threads"@,
        runtime_metric_type(RuntimeMetric::WorkersCount) == MetricType::Gauge,
        runtime_metric_name(RuntimeMetric::ParkCount) == "park_count"@,
        runtime_metric_description(RuntimeMetric::ParkCount) == "The number of times worker threads parked"@,
        runtime_metric_type(RuntimeMetric::ParkCount) == MetricType::Counter,
        runtime_metric_name(RuntimeMetric::NoopCount) == "noop_count"@,
        runtime_metric_description(RuntimeMetric::NoopCount) == "The number of times worker threads unparked but performed no work before parking again"@,
        runtime_metric_type(RuntimeMetric::NoopCount) == MetricType::Counter,
        runtime_metric_name(RuntimeMetric::StealCount) == "steal_count"@,
        runtime_metric_description(RuntimeMetric::StealCount) == "The number of times worker threads stole tasks from another worker thread"@,
        runtime_metric_type(RuntimeMetric::StealCount) == MetricType::Counter,
        runtime_metric_name(RuntimeMetric::RemoteScheduleCount) == "remote_schedule_count"@,
        runtime_metric_description(RuntimeMetric::RemoteScheduleCount) == "The number of tasks scheduled from **outside** of the runtime"@,
        runtime_metric_type(RuntimeMetric::RemoteScheduleCount) == MetricType::Counter,
        runtime_metric_name(RuntimeMetric::LocalScheduleCount) == "local_schedule_count"@,
        runtime_metric_description(RuntimeMetric::LocalScheduleCount) == "The number of tasks scheduled from worker threads"@,
        runtime_metric_type(RuntimeMetric::LocalScheduleCount) == MetricType::Counter,
        runtime_metric_name(RuntimeMetric::OverflowCount) == "overflow_count"@,
        runtime_metric_description(RuntimeMetric::OverflowCount) == "The number of times worker threads saturated their local queues"@,
        runtime_metric_type(RuntimeMetric::OverflowCount) == MetricType::Counter,
        runtime_metric_name(RuntimeMetric::PollsCount) == "polls_count"@,
        runtime_metric_description(RuntimeMetric::PollsCount) == "The number of tasks that have been polled across all worker threads"@,
        runtime_metric_type(RuntimeMetric::PollsCount) == MetricType::Counter,
        runtime_metric_name(RuntimeMetric::BusyDuration) == "busy_duration_seconds"@,
        runtime_metric_description(RuntimeMetric::BusyDuration) == "The amount of time worker threads were busy"@,
        runtime_metric_type(RuntimeMetric::BusyDuration) == MetricType::Counter,
        runtime_metric_name(RuntimeMetric::InjectionQueueDepth) == "injection_queue_depth"@,
        runtime_metric_description(RuntimeMetric::InjectionQueueDepth) == "The number of tasks currently scheduled in the runtime's injection queue"@,
        runtime_metric_type(RuntimeMetric::InjectionQueueDepth) == MetricType::Gauge,
        runtime_metric_name(RuntimeMetric::LocalQueueDepth) == "local_queue_depth"@,
        runtime_metric_description(RuntimeMetric::LocalQueueDepth) == "The total number of tasks currently scheduled in workers' local queues"@,
        runtime_metric_type(RuntimeMetric::LocalQueueDepth) == MetricType::Counter,
        runtime_metric_name(RuntimeMetric::MeanPollsPerPark) == "mean_polls_per_park"@,
        runtime_metric_description(RuntimeMetric::MeanPollsPerPark) == "The mean number of polls per park"@,
        runtime_metric_type(RuntimeMetric::MeanPollsPerPark) == MetricType::Gauge,
        runtime_metric_name(RuntimeMetric::BusyRatio) == "busy_ratio"@,
        runtime_metric_description(RuntimeMetric::BusyRatio) == "The proportion of time spent polling for tasks"@,
        runtime_metric_type(RuntimeMetric::BusyRatio) == MetricType::Gauge,
{
}

/// Law: what each runtime metric reports of the accumulated metrics `s`, field
/// by field: the minimum, maximum and total of its own group, in that order,
/// for the metrics that report them; its own field otherwise.
pub proof fn lemma_runtime_samples_fields(s: RuntimeSnapshot)
    ensures
        runtime_samples(RuntimeMetric::WorkersCount, s) == seq![
            unlabelled(SampleValue::Count(s.workers_count as u64)),
        ],
        runtime_samples(RuntimeMetric::RemoteScheduleCount, s) == seq![
            unlabelled(SampleValue::Count(s.num_remote_schedules)),
        ],
        runtime_samples(RuntimeMetric::InjectionQueueDepth, s) == seq![
            unlabelled(SampleValue::Count(s.injection_queue_depth as u64)),
        ],
        runtime_samples(RuntimeMetric::MeanPollsPerPark, s) == seq![
            unlabelled(
                SampleValue::PollsPerPark {
                    polls: s.total_polls_count,
                    parks: s.total_park_count,
                    noops: s.total_noop_count,
                },
            ),
        ],
        runtime_samples(RuntimeMetric::BusyRatio, s) == seq![
            unlabelled(
                SampleValue::BusyRatio {
                    busy_nanos: s.total_busy_duration_nanos,
                    elapsed_nanos: s.elapsed_nanos,
                },
            ),
        ],
        runtime_samples(RuntimeMetric::ParkCount, s) == seq![
            Sample { measurement: Some(Measurement::Min), value: SampleValue::Count(s.min_park_count) },
            Sample { measurement: Some(Measurement::Max), value: SampleValue::Count(s.max_park_count) },
            Sample { measurement: Some(Measurement::Total), value: SampleValue::Count(s.total_park_count) },
        ],
        runtime_samples(RuntimeMetric::NoopCount, s) == seq![
            Sample { measurement: Some(Measurement::Min), value: SampleValue::Count(s.min_noop_count) },
            Sample { measurement: Some(Measurement::Max), value: SampleValue::Count(s.max_noop_count) },
            Sample { measurement: Some(Measurement::Total), value: SampleValue::Count(s.total_noop_count) },
        ],
        runtime_samples(RuntimeMetric::StealCount, s) == seq![
            Sample { measurement: Some(Measurement::Min), value: SampleValue::Count(s.min_steal_count) },
            Sample { measurement: Some(Measurement::Max), value: SampleValue::Count(s.max_steal_count) },
            Sample { measurement: Some(Measurement::Total), value: SampleValue::Count(s.total_steal_count) },
        ],
        runtime_samples(RuntimeMetric::LocalScheduleCount, s) == seq![
            Sample { measurement: Some(Measurement::Min), value: SampleValue::Count(s.min_local_schedule_count) },
            Sample { measurement: Some(Measurement::Max), value: SampleValue::Count(s.max_local_schedule_count) },
            Sample { measurement: Some(Measurement::Total), value: SampleValue::Count(s.total_local_schedule_count) },
        ],
        runtime_samples(RuntimeMetric::OverflowCount, s) == seq![
            Sample { measurement: Some(Measurement::Min), value: SampleValue::Count(s.min_overflow_count) },
            Sample { measurement: Some(Measurement::Max), value: SampleValue::Count(s.max_overflow_count) },
            Sample { measurement: Some(Measurement::Total), value: SampleValue::Count(s.total_overflow_count) },
        ],
        runtime_samples(RuntimeMetric::PollsCount, s) == seq![
            Sample { measurement: Some(Measurement::Min), value: SampleValue::Count(s.min_polls_count) },
            Sample { measurement: Some(Measurement::Max), value: SampleValue::Count(s.max_polls_count) },
            Sample { measurement: Some(Measurement::Total), value: SampleValue::Count(s.total_polls_count) },
        ],
        runtime_samples(RuntimeMetric::BusyDuration, s) == seq![
            Sample { measurement: Some(Measurement::Min), value: SampleValue::Seconds(s.min_busy_duration_nanos) },
            Sample { measurement: Some(Measurement::Max), value: SampleValue::Seconds(s.max_busy_duration_nanos) },
            Sample { measurement: Some(Measurement::Total), value: SampleValue::Seconds(s.total_busy_duration_nanos) },
        ],
        runtime_samples(RuntimeMetric::LocalQueueDepth, s) == seq![
            Sample { measurement: Some(Measurement::Min), value: SampleValue::Count(s.min_local_queue_depth as u64) },
            Sample { measurement: Some(Measurement::Max), value: SampleValue::Count(s.max_local_queue_depth as u64) },
            Sample { measurement: Some(Measurement::Total), value: SampleValue::Count(s.total_local_queue_depth as u64) },
        ],
{
}

} // verus!
