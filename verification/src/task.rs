//! Task metrics: what a task collector reads from a task monitor, and what
//! each of its Prometheus metrics reports.
use vstd::prelude::*;

use crate::sample::{MetricType, SampleValue};

verus! {

/// The name of the label used to identify a monitor.
pub const MONITOR: &'static str = "monitor";

/// Declares `tokio_metrics::TaskMonitor` to Verus, as an opaque type: a task
/// collector holds its monitor and hands it to `cumulative`.
#[verifier::external_type_specification]
#[verifier::external_body]
pub struct ExTaskMonitor(tokio_metrics::TaskMonitor);

/// tokio's cumulative task metrics, as plain values.
///
/// Durations are held in nanoseconds.
#[derive(Clone, Copy, Debug, PartialEq, Eq, Structural)]
pub struct TaskSnapshot {
    pub instrumented_count: u64,
    pub dropped_count: u64,
    pub first_poll_count: u64,
    pub total_first_poll_delay_nanos: u128,
    pub total_idled_count: u64,
    pub total_idle_duration_nanos: u128,
    pub total_scheduled_count: u64,
    pub total_scheduled_duration_nanos: u128,
    pub total_poll_count: u64,
    pub total_poll_duration_nanos: u128,
    pub total_fast_poll_count: u64,
    pub total_fast_poll_duration_nanos: u128,
    pub total_slow_poll_count: u64,
    pub total_slow_poll_duration_nanos: u128,
}

/// The ranges that tokio's task monitor keeps its durations in: each is read
/// from a count of nanoseconds held in a `u64`, and the total poll duration is
/// the sum of two such counts (read apart from the fast and slow poll durations
/// that the snapshot also holds, so it need not equal their sum).
pub open spec fn durations_in_range(s: TaskSnapshot) -> bool {
    &&& s.total_first_poll_delay_nanos <= u64::MAX
    &&& s.total_idle_duration_nanos <= u64::MAX
    &&& s.total_scheduled_duration_nanos <= u64::MAX
    &&& s.total_fast_poll_duration_nanos <= u64::MAX
    &&& s.total_slow_poll_duration_nanos <= u64::MAX
    &&& s.total_poll_duration_nanos <= 2 * (u64::MAX as int)
}

/// Reads the cumulative metrics of a task monitor.
///
/// Calls `tokio_metrics::TaskMonitor::cumulative`, and takes each duration in
/// nanoseconds. What the metrics hold depends on the tasks that the monitor has
/// instrumented and on the time, so the contract only states the ranges that
/// tokio's source keeps the durations in (`Duration::from_nanos` of a `u64`,
/// and for the total poll duration the sum of two such).
#[verifier::external_body]
fn cumulative(monitor: &tokio_metrics::TaskMonitor) -> (r: TaskSnapshot)
    ensures
        durations_in_range(r),
{
    let m = monitor.cumulative();
    TaskSnapshot {
        instrumented_count: m.instrumented_count, dropped_count: m.dropped_count,
        first_poll_count: m.first_poll_count, total_idled_count: m.total_idled_count,
        total_first_poll_delay_nanos: m.total_first_poll_delay.as_nanos(),
        total_idle_duration_nanos: m.total_idle_duration.as_nanos(),
        total_scheduled_count: m.total_scheduled_count, total_poll_count: m.total_poll_count,
        total_scheduled_duration_nanos: m.total_scheduled_duration.as_nanos(),
        total_poll_duration_nanos: m.total_poll_duration.as_nanos(),
        total_fast_poll_count: m.total_fast_poll_count, total_slow_poll_count: m.total_slow_poll_count,
        total_fast_poll_duration_nanos: m.total_fast_poll_duration.as_nanos(),
        total_slow_poll_duration_nanos: m.total_slow_poll_duration.as_nanos(),
    }
}

/// tokio's mean of a total duration over a count, in nanoseconds: the total,
/// taken modulo 2^64 as tokio's `to_nanos` does with its wrapping arithmetic,
/// divided by the count, rounding down; zero where the count is zero.
pub open spec fn mean_nanos(total_nanos: u128, count: u64) -> u64 {
    if count == 0 {
        0
    } else {
        ((total_nanos as int % 0x1_0000_0000_0000_0000) / (count as int)) as u64
    }
}

/// The mean duration of `count` events that took `total_nanos` in all, in
/// nanoseconds, as tokio's task metrics compute it.
pub fn mean_duration_nanos(total_nanos: u128, count: u64) -> (r: u64)
    ensures
        r == mean_nanos(total_nanos, count),
{
    let wrapped = (total_nanos % 0x1_0000_0000_0000_0000u128) as u64;
    if count == 0 {
        0
    } else {
        wrapped / count
    }
}

/// A task monitor and its most recent cumulative metrics.
pub struct CachedMonitor {
    monitor: tokio_metrics::TaskMonitor,
    current: TaskSnapshot,
}

impl CachedMonitor {
    /// The monitor that the metrics are read from.
    pub closed spec fn monitor(&self) -> tokio_metrics::TaskMonitor {
        self.monitor
    }

    /// The most recent metrics.
    pub closed spec fn current(&self) -> TaskSnapshot {
        self.current
    }

    /// Reads the monitor's metrics for the first time.
    pub fn new(monitor: tokio_metrics::TaskMonitor) -> (r: Self)
        ensures
            r.monitor() == monitor,
            durations_in_range(r.current()),
    {
        let current = cumulative(&monitor);
        CachedMonitor { monitor, current }
    }

    /// Reads the monitor's metrics again, in place of the previous ones.
    pub fn refresh(&mut self)
        ensures
            final(self).monitor() == old(self).monitor(),
            durations_in_range(final(self).current()),
    {
        self.current = cumulative(&self.monitor);
    }

    /// The most recent metrics.
    pub fn get(&self) -> (r: &TaskSnapshot)
        ensures
            *r == self.current(),
    {
        &self.current
    }
}

/// The metrics that a task collector registers.
#[derive(Clone, Copy, Debug, PartialEq, Eq, Structural)]
pub enum TaskMetric {
    InstrumentedCount,
    DroppedCount,
    FirstPollCount,
    FirstPollDelay,
    IdledCount,
    IdleDuration,
    ScheduledCount,
    ScheduledDuration,
    PollCount,
    PollDuration,
    FastPollCount,
    FastPollDuration,
    SlowPollCount,
    SlowPollDuration,
    MeanFirstPollDelay,
    MeanIdleDuration,
    MeanScheduledDuration,
    MeanPollDuration,
    SlowPollRatio,
    MeanFastPollDuration,
    MeanSlowPollDuration,
}

/// The name under which a task metric is registered.
pub open spec fn task_metric_name(m: TaskMetric) -> Seq<char> {
    match m {
        TaskMetric::InstrumentedCount => "instrumented_count"@,
        TaskMetric::DroppedCount => "dropped_count"@,
        TaskMetric::FirstPollCount => "first_poll_count"@,
        TaskMetric::FirstPollDelay => "first_poll_delay_seconds"@,
        TaskMetric::IdledCount => "idled_count"@,
        TaskMetric::IdleDuration => "idle_duration_seconds"@,
        TaskMetric::ScheduledCount => "scheduled_count"@,
        TaskMetric::ScheduledDuration => "scheduled_duration_seconds"@,
        TaskMetric::PollCount => "poll_count"@,
        TaskMetric::PollDuration => "poll_duration_seconds"@,
        TaskMetric::FastPollCount => "fast_poll_count"@,
        TaskMetric::FastPollDuration => "fast_poll_duration_seconds"@,
        TaskMetric::SlowPollCount => "slow_poll_count"@,
        TaskMetric::SlowPollDuration => "slow_poll_duration_seconds"@,
        TaskMetric::MeanFirstPollDelay => "mean_first_poll_delay_seconds"@,
        TaskMetric::MeanIdleDuration => "mean_idle_duration_seconds"@,
        TaskMetric::MeanScheduledDuration => "mean_scheduled_duration_seconds"@,
        TaskMetric::MeanPollDuration => "mean_poll_duration_seconds"@,
        TaskMetric::SlowPollRatio => "slow_poll_ratio"@,
        TaskMetric::MeanFastPollDuration => "mean_fast_poll_duration_seconds"@,
        TaskMetric::MeanSlowPollDuration => "mean_slow_poll_duration_seconds"@,
    }
}

/// The help text under which a task metric is registered.
pub open spec fn task_metric_description(m: TaskMetric) -> Seq<char> {
    match m {
        TaskMetric::InstrumentedCount => "The number of tasks instrumented"@,
        TaskMetric::DroppedCount => "The number of tasks dropped"@,
        TaskMetric::FirstPollCount => "The number of tasks polled for the first time"@,
        TaskMetric::FirstPollDelay => "The total duration elapsed between the instant tasks are instrumented, and the instant they are first polled"@,
        TaskMetric::IdledCount => "The total number of times that tasks idled, waiting to be awoken"@,
        TaskMetric::IdleDuration => "The total duration that tasks idled"@,
        TaskMetric::ScheduledCount => "The total number of times that tasks were awoken (and then, presumably, scheduled for execution)"@,
        TaskMetric::ScheduledDuration => "The total duration that tasks spent waiting to be polled after awakening"@,
        TaskMetric::PollCount => "The total number of times that tasks were polled"@,
        TaskMetric::PollDuration => "The total duration elapsed during polls"@,
        TaskMetric::FastPollCount => "The total number of times that polling tasks completed swiftly"@,
        TaskMetric::FastPollDuration => "The total duration of fast polls"@,
        TaskMetric::SlowPollCount => "The total number of times that polling tasks completed slowly"@,
        TaskMetric::SlowPollDuration => "The total duration of slow polls"@,
        TaskMetric::MeanFirstPollDelay => "The mean duration elapsed between the instant tasks are instrumented, and the instant they are first polled"@,
        TaskMetric::MeanIdleDuration => "The mean duration of idles"@,
        TaskMetric::MeanScheduledDuration => "The mean duration that tasks spent waiting to be executed after awakening"@,
        TaskMetric::MeanPollDuration => "The mean duration of polls"@,
        TaskMetric::SlowPollRatio => "The ratio between the number of polls categorized as slow or fast"@,
        TaskMetric::MeanFastPollDuration => "The mean duration of fast_polls"@,
        TaskMetric::MeanSlowPollDuration => "The mean duration of slow_polls"@,
    }
}

/// The Prometheus type of a task metric.
pub open spec fn task_metric_type(m: TaskMetric) -> MetricType {
    match m {
        TaskMetric::InstrumentedCount => MetricType::Counter,
        TaskMetric::DroppedCount => MetricType::Counter,
        TaskMetric::FirstPollCount => MetricType::Counter,
        TaskMetric::FirstPollDelay => MetricType::Counter,
        TaskMetric::IdledCount => MetricType::Counter,
        TaskMetric::IdleDuration => MetricType::Counter,
        TaskMetric::ScheduledCount => MetricType::Counter,
        TaskMetric::ScheduledDuration => MetricType::Counter,
        TaskMetric::PollCount => MetricType::Counter,
        TaskMetric::PollDuration => MetricType::Counter,
        TaskMetric::FastPollCount => MetricType::Counter,
        TaskMetric::FastPollDuration => MetricType::Counter,
        TaskMetric::SlowPollCount => MetricType::Counter,
        TaskMetric::SlowPollDuration => MetricType::Counter,
        TaskMetric::MeanFirstPollDelay => MetricType::Gauge,
        TaskMetric::MeanIdleDuration => MetricType::Gauge,
        TaskMetric::MeanScheduledDuration => MetricType::Gauge,
        TaskMetric::MeanPollDuration => MetricType::Gauge,
        TaskMetric::SlowPollRatio => MetricType::Gauge,
        TaskMetric::MeanFastPollDuration => MetricType::Gauge,
        TaskMetric::MeanSlowPollDuration => MetricType::Gauge,
    }
}

/// Whether encoding this metric first reads the monitor's metrics again. Only
/// the instrumented count does so, and it is registered first.
pub open spec fn task_metric_refreshes(m: TaskMetric) -> bool {
    m == TaskMetric::InstrumentedCount
}

/// The value that a task metric reports from the metrics `s`.
pub open spec fn task_value(m: TaskMetric, s: TaskSnapshot) -> SampleValue {
    match m {
        TaskMetric::InstrumentedCount => SampleValue::Count(s.instrumented_count),
        TaskMetric::DroppedCount => SampleValue::Count(s.dropped_count),
        TaskMetric::FirstPollCount => SampleValue::Count(s.first_poll_count),
        TaskMetric::FirstPollDelay => SampleValue::Seconds(s.total_first_poll_delay_nanos),
        TaskMetric::IdledCount => SampleValue::Count(s.total_idled_count),
        TaskMetric::IdleDuration => SampleValue::Seconds(s.total_idle_duration_nanos),
        TaskMetric::ScheduledCount => SampleValue::Count(s.total_scheduled_count),
        TaskMetric::ScheduledDuration => SampleValue::Seconds(s.total_scheduled_duration_nanos),
        TaskMetric::PollCount => SampleValue::Count(s.total_poll_count),
        TaskMetric::PollDuration => SampleValue::Seconds(s.total_poll_duration_nanos),
        TaskMetric::FastPollCount => SampleValue::Count(s.total_fast_poll_count),
        TaskMetric::FastPollDuration => SampleValue::Seconds(s.total_fast_poll_duration_nanos),
        TaskMetric::SlowPollCount => SampleValue::Count(s.total_slow_poll_count),
        TaskMetric::SlowPollDuration => SampleValue::Seconds(s.total_slow_poll_duration_nanos),
        TaskMetric::MeanFirstPollDelay => SampleValue::Seconds(mean_nanos(s.total_first_poll_delay_nanos, s.first_poll_count) as u128),
        TaskMetric::MeanIdleDuration => SampleValue::Seconds(mean_nanos(s.total_idle_duration_nanos, s.total_idled_count) as u128),
        TaskMetric::MeanScheduledDuration => SampleValue::Seconds(mean_nanos(s.total_scheduled_duration_nanos, s.total_scheduled_count) as u128),
        TaskMetric::MeanPollDuration => SampleValue::Seconds(mean_nanos(s.total_poll_duration_nanos, s.total_poll_count) as u128),
        TaskMetric::SlowPollRatio => SampleValue::SlowPollRatio { slow: s.total_slow_poll_count, total: s.total_poll_count },
        TaskMetric::MeanFastPollDuration => SampleValue::Seconds(mean_nanos(s.total_fast_poll_duration_nanos, s.total_fast_poll_count) as u128),
        TaskMetric::MeanSlowPollDuration => SampleValue::Seconds(mean_nanos(s.total_slow_poll_duration_nanos, s.total_slow_poll_count) as u128),
    }
}

/// The order in which a task collector registers its metrics.
pub open spec fn task_registration_order() -> Seq<TaskMetric> {
    seq![
        TaskMetric::InstrumentedCount,
        TaskMetric::DroppedCount,
        TaskMetric::FirstPollCount,
        TaskMetric::FirstPollDelay,
        TaskMetric::IdledCount,
        TaskMetric::IdleDuration,
        TaskMetric::ScheduledCount,
        TaskMetric::ScheduledDuration,
        TaskMetric::PollCount,
        TaskMetric::PollDuration,
        TaskMetric::FastPollCount,
        TaskMetric::FastPollDuration,
        TaskMetric::SlowPollCount,
        TaskMetric::SlowPollDuration,
        TaskMetric::MeanFirstPollDelay,
        TaskMetric::MeanIdleDuration,
        TaskMetric::MeanScheduledDuration,
        TaskMetric::MeanPollDuration,
        TaskMetric::SlowPollRatio,
        TaskMetric::MeanFastPollDuration,
        TaskMetric::MeanSlowPollDuration,
    ]
}

impl TaskMetric {
    /// The name under which this metric is registered.
    pub fn name(&self) -> (r: &'static str)
        ensures
            r@ == task_metric_name(*self),
    {
        match self {
            TaskMetric::InstrumentedCount => "instrumented_count",
            TaskMetric::DroppedCount => "dropped_count",
            TaskMetric::FirstPollCount => "first_poll_count",
            TaskMetric::FirstPollDelay => "first_poll_delay_seconds",
            TaskMetric::IdledCount => "idled_count",
            TaskMetric::IdleDuration => "idle_duration_seconds",
            TaskMetric::ScheduledCount => "scheduled_count",
            TaskMetric::ScheduledDuration => "scheduled_duration_seconds",
            TaskMetric::PollCount => "poll_count",
            TaskMetric::PollDuration => "poll_duration_seconds",
            TaskMetric::FastPollCount => "fast_poll_count",
            TaskMetric::FastPollDuration => "fast_poll_duration_seconds",
            TaskMetric::SlowPollCount => "slow_poll_count",
            TaskMetric::SlowPollDuration => "slow_poll_duration_seconds",
            TaskMetric::MeanFirstPollDelay => "mean_first_poll_delay_seconds",
            TaskMetric::MeanIdleDuration => "mean_idle_duration_seconds",
            TaskMetric::MeanScheduledDuration => "mean_scheduled_duration_seconds",
            TaskMetric::MeanPollDuration => "mean_poll_duration_seconds",
            TaskMetric::SlowPollRatio => "slow_poll_ratio",
            TaskMetric::MeanFastPollDuration => "mean_fast_poll_duration_seconds",
            TaskMetric::MeanSlowPollDuration => "mean_slow_poll_duration_seconds",
        }
    }

    /// The help text under which this metric is registered.
    pub fn description(&self) -> (r: &'static str)
        ensures
            r@ == task_metric_description(*self),
    {
        match self {
            TaskMetric::InstrumentedCount => "The number of tasks instrumented",
            TaskMetric::DroppedCount => "The number of tasks dropped",
            TaskMetric::FirstPollCount => "The number of tasks polled for the first time",
            TaskMetric::FirstPollDelay => "The total duration elapsed between the instant tasks are instrumented, and the instant they are first polled",
            TaskMetric::IdledCount => "The total number of times that tasks idled, waiting to be awoken",
            TaskMetric::IdleDuration => "The total duration that tasks idled",
            TaskMetric::ScheduledCount => "The total number of times that tasks were awoken (and then, presumably, scheduled for execution)",
            TaskMetric::ScheduledDuration => "The total duration that tasks spent waiting to be polled after awakening",
            TaskMetric::PollCount => "The total number of times that tasks were polled",
            TaskMetric::PollDuration => "The total duration elapsed during polls",
            TaskMetric::FastPollCount => "The total number of times that polling tasks completed swiftly",
            TaskMetric::FastPollDuration => "The total duration of fast polls",
            TaskMetric::SlowPollCount => "The total number of times that polling tasks completed slowly",
            TaskMetric::SlowPollDuration => "The total duration of slow polls",
            TaskMetric::MeanFirstPollDelay => "The mean duration elapsed between the instant tasks are instrumented, and the instant they are first polled",
            TaskMetric::MeanIdleDuration => "The mean duration of idles",
            TaskMetric::MeanScheduledDuration => "The mean duration that tasks spent waiting to be executed after awakening",
            TaskMetric::MeanPollDuration => "The mean duration of polls",
            TaskMetric::SlowPollRatio => "The ratio between the number of polls categorized as slow or fast",
            TaskMetric::MeanFastPollDuration => "The mean duration of fast_polls",
            TaskMetric::MeanSlowPollDuration => "The mean duration of slow_polls",
        }
    }

    /// The Prometheus type of this metric.
    pub fn metric_type(&self) -> (r: MetricType)
        ensures
            r == task_metric_type(*self),
    {
        match self {
            TaskMetric::InstrumentedCount => MetricType::Counter,
            TaskMetric::DroppedCount => MetricType::Counter,
            TaskMetric::FirstPollCount => MetricType::Counter,
            TaskMetric::FirstPollDelay => MetricType::Counter,
            TaskMetric::IdledCount => MetricType::Counter,
            TaskMetric::IdleDuration => MetricType::Counter,
            TaskMetric::ScheduledCount => MetricType::Counter,
            TaskMetric::ScheduledDuration => MetricType::Counter,
            TaskMetric::PollCount => MetricType::Counter,
            TaskMetric::PollDuration => MetricType::Counter,
            TaskMetric::FastPollCount => MetricType::Counter,
            TaskMetric::FastPollDuration => MetricType::Counter,
            TaskMetric::SlowPollCount => MetricType::Counter,
            TaskMetric::SlowPollDuration => MetricType::Counter,
            TaskMetric::MeanFirstPollDelay => MetricType::Gauge,
            TaskMetric::MeanIdleDuration => MetricType::Gauge,
            TaskMetric::MeanScheduledDuration => MetricType::Gauge,
            TaskMetric::MeanPollDuration => MetricType::Gauge,
            TaskMetric::SlowPollRatio => MetricType::Gauge,
            TaskMetric::MeanFastPollDuration => MetricType::Gauge,
            TaskMetric::MeanSlowPollDuration => MetricType::Gauge,
        }
    }

    /// Whether encoding this metric first reads the monitor's metrics again.
    pub fn refreshes(&self) -> (r: bool)
        ensures
            r == task_metric_refreshes(*self),
    {
        match self {
            TaskMetric::InstrumentedCount => true,
            _ => false,
        }
    }

    /// The value that this metric reports from the metrics `s`.
    pub fn value(&self, s: &TaskSnapshot) -> (r: SampleValue)
        ensures
            r == task_value(*self, *s),
    {
        match self {
            TaskMetric::InstrumentedCount => SampleValue::Count(s.instrumented_count),
            TaskMetric::DroppedCount => SampleValue::Count(s.dropped_count),
            TaskMetric::FirstPollCount => SampleValue::Count(s.first_poll_count),
            TaskMetric::FirstPollDelay => SampleValue::Seconds(s.total_first_poll_delay_nanos),
            TaskMetric::IdledCount => SampleValue::Count(s.total_idled_count),
            TaskMetric::IdleDuration => SampleValue::Seconds(s.total_idle_duration_nanos),
            TaskMetric::ScheduledCount => SampleValue::Count(s.total_scheduled_count),
            TaskMetric::ScheduledDuration => SampleValue::Seconds(s.total_scheduled_duration_nanos),
            TaskMetric::PollCount => SampleValue::Count(s.total_poll_count),
            TaskMetric::PollDuration => SampleValue::Seconds(s.total_poll_duration_nanos),
            TaskMetric::FastPollCount => SampleValue::Count(s.total_fast_poll_count),
            TaskMetric::FastPollDuration => SampleValue::Seconds(s.total_fast_poll_duration_nanos),
            TaskMetric::SlowPollCount => SampleValue::Count(s.total_slow_poll_count),
            TaskMetric::SlowPollDuration => SampleValue::Seconds(s.total_slow_poll_duration_nanos),
            TaskMetric::MeanFirstPollDelay => SampleValue::Seconds(mean_duration_nanos(s.total_first_poll_delay_nanos, s.first_poll_count) as u128),
            TaskMetric::MeanIdleDuration => SampleValue::Seconds(mean_duration_nanos(s.total_idle_duration_nanos, s.total_idled_count) as u128),
            TaskMetric::MeanScheduledDuration => SampleValue::Seconds(mean_duration_nanos(s.total_scheduled_duration_nanos, s.total_scheduled_count) as u128),
            TaskMetric::MeanPollDuration => SampleValue::Seconds(mean_duration_nanos(s.total_poll_duration_nanos, s.total_poll_count) as u128),
            TaskMetric::SlowPollRatio => SampleValue::SlowPollRatio { slow: s.total_slow_poll_count, total: s.total_poll_count },
            TaskMetric::MeanFastPollDuration => SampleValue::Seconds(mean_duration_nanos(s.total_fast_poll_duration_nanos, s.total_fast_poll_count) as u128),
            TaskMetric::MeanSlowPollDuration => SampleValue::Seconds(mean_duration_nanos(s.total_slow_poll_duration_nanos, s.total_slow_poll_count) as u128),
        }
    }
}

/// A Prometheus collector for a tokio task monitor: the monitor, the metrics
/// last read from it, and the name that labels every metric it reports.
pub struct TaskCollector {
    name: String,
    cached: CachedMonitor,
}

impl TaskCollector {
    /// The value of the `monitor` label of this collector's metrics.
    pub closed spec fn label(&self) -> Seq<char> {
        self.name@
    }

    /// The monitor that the metrics are read from.
    pub closed spec fn monitor(&self) -> tokio_metrics::TaskMonitor {
        self.cached.monitor()
    }

    /// The metrics last read from the monitor.
    pub closed spec fn current(&self) -> TaskSnapshot {
        self.cached.current()
    }

    /// Creates a collector that labels its metrics with `name` and reads them
    /// from `monitor`.
    pub fn new(name: &str, monitor: tokio_metrics::TaskMonitor) -> (r: Self)
        ensures
            r.label() == name@,
            r.monitor() == monitor,
            durations_in_range(r.current()),
    {
        let name = name.to_owned();
        TaskCollector { name, cached: CachedMonitor::new(monitor) }
    }

    /// The value of the `monitor` label of this collector's metrics.
    pub fn name(&self) -> (r: &str)
        ensures
            r@ == self.label(),
    {
        self.name.as_str()
    }

    /// The label set of every metric of this collector: the `monitor` label,
    /// whose value is the collector's name.
    pub fn label_set(&self) -> (r: (&'static str, &str))
        ensures
            r.0@ == "monitor"@,
            r.1@ == self.label(),
    {
        (MONITOR, self.name.as_str())
    }

    /// The metrics of this collector, in the order in which they are registered.
    pub fn metrics(&self) -> (r: Vec<TaskMetric>)
        ensures
            r@ == task_registration_order(),
    {
        vec![
            TaskMetric::InstrumentedCount,
            TaskMetric::DroppedCount,
            TaskMetric::FirstPollCount,
            TaskMetric::FirstPollDelay,
            TaskMetric::IdledCount,
            TaskMetric::IdleDuration,
            TaskMetric::ScheduledCount,
            TaskMetric::ScheduledDuration,
            TaskMetric::PollCount,
            TaskMetric::PollDuration,
            TaskMetric::FastPollCount,
            TaskMetric::FastPollDuration,
            TaskMetric::SlowPollCount,
            TaskMetric::SlowPollDuration,
            TaskMetric::MeanFirstPollDelay,
            TaskMetric::MeanIdleDuration,
            TaskMetric::MeanScheduledDuration,
            TaskMetric::MeanPollDuration,
            TaskMetric::SlowPollRatio,
            TaskMetric::MeanFastPollDuration,
            TaskMetric::MeanSlowPollDuration,
        ]
    }

    /// Reads the monitor's metrics again.
    pub fn refresh(&mut self)
        ensures
            final(self).label() == old(self).label(),
            final(self).monitor() == old(self).monitor(),
            durations_in_range(final(self).current()),
    {
        self.cached.refresh();
    }

    /// The metrics last read from the monitor.
    pub fn get(&self) -> (r: &TaskSnapshot)
        ensures
            *r == self.current(),
    {
        self.cached.get()
    }

    /// The value that `metric` reports now.
    pub fn value(&self, metric: TaskMetric) -> (r: SampleValue)
        ensures
            r == task_value(metric, self.current()),
    {
        metric.value(self.cached.get())
    }
}

/// Law: of the task metrics in registration order, the first one, and only it,
/// reads the monitor again when it is encoded.
pub proof fn lemma_only_first_task_metric_refreshes()
    ensures
        task_registration_order().len() > 0,
        task_metric_refreshes(task_registration_order()[0]),
        forall|i: int|
            0 < i < task_registration_order().len() ==> !task_metric_refreshes(
                #[trigger] task_registration_order()[i],
            ),
{
}

/// Law: a task collector registers every task metric, each once.
pub proof fn lemma_task_registration_covers_each_metric_once(m: TaskMetric)
    ensures
        task_registration_order().contains(m),
        forall|i: int, j: int|
            0 <= i < j < task_registration_order().len() ==> task_registration_order()[i]
                != task_registration_order()[j],
{
    let order = task_registration_order();
    let i: int = match m {
        TaskMetric::InstrumentedCount => 0,
        TaskMetric::DroppedCount => 1,
        TaskMetric::FirstPollCount => 2,
        TaskMetric::FirstPollDelay => 3,
        TaskMetric::IdledCount => 4,
        TaskMetric::IdleDuration => 5,
        TaskMetric::ScheduledCount => 6,
        TaskMetric::ScheduledDuration => 7,
        TaskMetric::PollCount => 8,
        TaskMetric::PollDuration => 9,
        TaskMetric::FastPollCount => 10,
        TaskMetric::FastPollDuration => 11,
        TaskMetric::SlowPollCount => 12,
        TaskMetric::SlowPollDuration => 13,
        TaskMetric::MeanFirstPollDelay => 14,
        TaskMetric::MeanIdleDuration => 15,
        TaskMetric::MeanScheduledDuration => 16,
        TaskMetric::MeanPollDuration => 17,
        TaskMetric::SlowPollRatio => 18,
        TaskMetric::MeanFastPollDuration => 19,
        TaskMetric::MeanSlowPollDuration => 20,
    };
    assert(order[i] == m);
}

/// Law: no two task metrics are registered under the same name.
pub proof fn lemma_task_metric_names_distinct(a: TaskMetric, b: TaskMetric)
    requires
        a != b,
    ensures
        task_metric_name(a) != task_metric_name(b),
{
    reveal_strlit("instrumented_count");
    reveal_strlit("dropped_count");
    reveal_strlit("first_poll_count");
    reveal_strlit("first_poll_delay_seconds");
    reveal_strlit("idled_count");
    reveal_strlit("idle_duration_seconds");
    reveal_strlit("scheduled_count");
    reveal_strlit("scheduled_duration_seconds");
    reveal_strlit("poll_count");
    reveal_strlit("poll_duration_seconds");
    reveal_strlit("fast_poll_count");
    reveal_strlit("fast_poll_duration_seconds");
    reveal_strlit("slow_poll_count");
    reveal_strlit("slow_poll_duration_seconds");
    reveal_strlit("mean_first_poll_delay_seconds");
    reveal_strlit("mean_idle_duration_seconds");
    reveal_strlit("mean_scheduled_duration_seconds");
    reveal_strlit("mean_poll_duration_seconds");
    reveal_strlit("slow_poll_ratio");
    reveal_strlit("mean_fast_poll_duration_seconds");
    reveal_strlit("mean_slow_poll_duration_seconds");
    let na = task_metric_name(a);
    let nb = task_metric_name(b);
    if na.len() == nb.len() {
        assert(na[0] != nb[0] || na[1] != nb[1] || na[5] != nb[5] || na[6] != nb[6] || na[10] != nb[10]);
    }
}

/// Law: where the count is not zero and the total fits in 64 bits, the mean is
/// the largest duration that, taken `count` times, does not exceed the total.
pub proof fn lemma_mean_is_floor(total_nanos: u128, count: u64)
    requires
        count > 0,
        total_nanos <= u64::MAX,
    ensures
        mean_nanos(total_nanos, count) * count <= total_nanos,
        total_nanos < (mean_nanos(total_nanos, count) + 1) * count,
{
    let t = total_nanos as int;
    let c = count as int;
    assert(t % 0x1_0000_0000_0000_0000 == t);
    let q = t / c;
    vstd::arithmetic::div_mod::lemma_fundamental_div_mod(t, c);
    assert(0 <= t % c < c);
    assert(q * c <= t) by (nonlinear_arith)
        requires t == c * q + t % c, 0 <= t % c;
    assert(t < (q + 1) * c) by (nonlinear_arith)
        requires t == c * q + t % c, t % c < c;
}

/// Law: each raw task metric reports its own field of the metrics read from
/// the monitor: the counts as counts, the durations in nanoseconds.
pub proof fn lemma_raw_task_values(s: TaskSnapshot)
    ensures
        task_value(TaskMetric::InstrumentedCount, s) == SampleValue::Count(s.instrumented_count),
        task_value(TaskMetric::DroppedCount, s) == SampleValue::Count(s.dropped_count),
        task_value(TaskMetric::FirstPollCount, s) == SampleValue::Count(s.first_poll_count),
        task_value(TaskMetric::FirstPollDelay, s) == SampleValue::Seconds(s.total_first_poll_delay_nanos),
        task_value(TaskMetric::IdledCount, s) == SampleValue::Count(s.total_idled_count),
        task_value(TaskMetric::IdleDuration, s) == SampleValue::Seconds(s.total_idle_duration_nanos),
        task_value(TaskMetric::ScheduledCount, s) == SampleValue::Count(s.total_scheduled_count),
        task_value(TaskMetric::ScheduledDuration, s) == SampleValue::Seconds(s.total_scheduled_duration_nanos),
        task_value(TaskMetric::PollCount, s) == SampleValue::Count(s.total_poll_count),
        task_value(TaskMetric::PollDuration, s) == SampleValue::Seconds(s.total_poll_duration_nanos),
        task_value(TaskMetric::FastPollCount, s) == SampleValue::Count(s.total_fast_poll_count),
        task_value(TaskMetric::FastPollDuration, s) == SampleValue::Seconds(s.total_fast_poll_duration_nanos),
        task_value(TaskMetric::SlowPollCount, s) == SampleValue::Count(s.total_slow_poll_count),
        task_value(TaskMetric::SlowPollDuration, s) == SampleValue::Seconds(s.total_slow_poll_duration_nanos),
{
}

/// Whether `v` is the mean of a total duration over a count, as tokio takes it:
/// zero where the count is zero; otherwise a duration that, taken `count`
/// times, stays within the total (read modulo 2^64), and one nanosecond more
/// would not.
pub open spec fn is_mean_over(v: SampleValue, total_nanos: u128, count: u64) -> bool {
    &&& v is Seconds
    &&& count == 0 ==> v->Seconds_0 == 0
    &&& count > 0 ==> {
        let t = total_nanos as int % 0x1_0000_0000_0000_0000;
        &&& (v->Seconds_0 as int) * (count as int) <= t
        &&& t < (v->Seconds_0 as int + 1) * (count as int)
    }
}

/// Law: each derived task metric is the mean of its own total over its own
/// count (the mean first poll delay over the first polls, the mean idle
/// duration over the idles, the mean scheduled duration over the schedules,
/// the mean poll duration over all polls, the mean fast and slow poll
/// durations over the fast and slow polls), and the slow poll ratio takes the
/// slow polls over all polls.
pub proof fn lemma_derived_task_values(s: TaskSnapshot)
    ensures
        is_mean_over(task_value(TaskMetric::MeanFirstPollDelay, s), s.total_first_poll_delay_nanos, s.first_poll_count),
        is_mean_over(task_value(TaskMetric::MeanIdleDuration, s), s.total_idle_duration_nanos, s.total_idled_count),
        is_mean_over(task_value(TaskMetric::MeanScheduledDuration, s), s.total_scheduled_duration_nanos, s.total_scheduled_count),
        is_mean_over(task_value(TaskMetric::MeanPollDuration, s), s.total_poll_duration_nanos, s.total_poll_count),
        is_mean_over(task_value(TaskMetric::MeanFastPollDuration, s), s.total_fast_poll_duration_nanos, s.total_fast_poll_count),
        is_mean_over(task_value(TaskMetric::MeanSlowPollDuration, s), s.total_slow_poll_duration_nanos, s.total_slow_poll_count),
        task_value(TaskMetric::SlowPollRatio, s) == (SampleValue::SlowPollRatio {
            slow: s.total_slow_poll_count,
            total: s.total_poll_count,
        }),
{
    lemma_mean_is_floor_wrapped(s.total_first_poll_delay_nanos, s.first_poll_count);
    lemma_mean_is_floor_wrapped(s.total_idle_duration_nanos, s.total_idled_count);
    lemma_mean_is_floor_wrapped(s.total_scheduled_duration_nanos, s.total_scheduled_count);
    lemma_mean_is_floor_wrapped(s.total_poll_duration_nanos, s.total_poll_count);
    lemma_mean_is_floor_wrapped(s.total_fast_poll_duration_nanos, s.total_fast_poll_count);
    lemma_mean_is_floor_wrapped(s.total_slow_poll_duration_nanos, s.total_slow_poll_count);
}

/// The mean of a total over a non-zero count is the floor of the total, read
/// modulo 2^64, over the count.
proof fn lemma_mean_is_floor_wrapped(total_nanos: u128, count: u64)
    ensures
        is_mean_over(SampleValue::Seconds(mean_nanos(total_nanos, count) as u128), total_nanos, count),
{
    if count > 0 {
        let t = total_nanos as int % 0x1_0000_0000_0000_0000;
        let c = count as int;
        let q = t / c;
        assert(0 <= t < 0x1_0000_0000_0000_0000);
        assert(q <= t) by (nonlinear_arith)
            requires q == t / c, c > 0, t >= 0;
        vstd::arithmetic::div_mod::lemma_fundamental_div_mod(t, c);
        assert(q * c <= t) by (nonlinear_arith)
            requires t == c * q + t % c, 0 <= t % c;
        assert(t < (q + 1) * c) by (nonlinear_arith)
            requires t == c * q + t % c, t % c < c;
        assert(mean_nanos(total_nanos, count) == q);
    }
}

/// Law: the name, help text and Prometheus type of every task metric.
pub proof fn lemma_task_metric_table()
    ensures
        task_metric_name(TaskMetric::InstrumentedCount) == "instrumented_count"@,
        task_metric_description(TaskMetric::InstrumentedCount) == "The number of tasks instrumented"@,
        task_metric_type(TaskMetric::InstrumentedCount) == MetricType::Counter,
        task_metric_name(TaskMetric::DroppedCount) == "dropped_count"@,
        task_metric_description(TaskMetric::DroppedCount) == "The number of tasks dropped"@,
        task_metric_type(TaskMetric::DroppedCount) == MetricType::Counter,
        task_metric_name(TaskMetric::FirstPollCount) == "first_poll_count"@,
        task_metric_description(TaskMetric::FirstPollCount) == "The number of tasks polled for the first time"@,
        task_metric_type(TaskMetric::FirstPollCount) == MetricType::Counter,
        task_metric_name(TaskMetric::FirstPollDelay) == "first_poll_delay_seconds"@,
        task_metric_description(TaskMetric::FirstPollDelay) == "The total duration elapsed between the instant tasks are instrumented, and the instant they are first polled"@,
        task_metric_type(TaskMetric::FirstPollDelay) == MetricType::Counter,
        task_metric_name(TaskMetric::IdledCount) == "idled_count"@,
        task_metric_description(TaskMetric::IdledCount) == "The total number of times that tasks idled, waiting to be awoken"@,
        task_metric_type(TaskMetric::IdledCount) == MetricType::Counter,
        task_metric_name(TaskMetric::IdleDuration) == "idle_duration_seconds"@,
        task_metric_description(TaskMetric::IdleDuration) == "The total duration that tasks idled"@,
        task_metric_type(TaskMetric::IdleDuration) == MetricType::Counter,
        task_metric_name(TaskMetric::ScheduledCount) == "scheduled_count"@,
        task_metric_description(TaskMetric::ScheduledCount) == "The total number of times that tasks were awoken (and then, presumably, scheduled for execution)"@,
        task_metric_type(TaskMetric::ScheduledCount) == MetricType::Counter,
        task_metric_name(TaskMetric::ScheduledDuration) == "scheduled_duration_seconds"@,
        task_metric_description(TaskMetric::ScheduledDuration) == "The total duration that tasks spent waiting to be polled after awakening"@,
        task_metric_type(TaskMetric::ScheduledDuration) == MetricType::Counter,
        task_metric_name(TaskMetric::PollCount) == "poll_count"@,
        task_metric_description(TaskMetric::PollCount) == "The total number of times that tasks were polled"@,
        task_metric_type(TaskMetric::PollCount) == MetricType::Counter,
        task_metric_name(TaskMetric::PollDuration) == "poll_duration_seconds"@,
        task_metric_description(TaskMetric::PollDuration) == "The total duration elapsed during polls"@,
        task_metric_type(TaskMetric::PollDuration) == MetricType::Counter,
        task_metric_name(TaskMetric::FastPollCount) == "fast_poll_count"@,
        task_metric_description(TaskMetric::FastPollCount) == "The total number of times that polling tasks completed swiftly"@,
        task_metric_type(TaskMetric::FastPollCount) == MetricType::Counter,
        task_metric_name(TaskMetric::FastPollDuration) == "fast_poll_duration_seconds"@,
        task_metric_description(TaskMetric::FastPollDuration) == "The total duration of fast polls"@,
        task_metric_type(TaskMetric::FastPollDuration) == MetricType::Counter,
        task_metric_name(TaskMetric::SlowPollCount) == "slow_poll_count"@,
        task_metric_description(TaskMetric::SlowPollCount) == "The total number of times that polling tasks completed slowly"@,
        task_metric_type(TaskMetric::SlowPollCount) == MetricType::Counter,
        task_metric_name(TaskMetric::SlowPollDuration) == "slow_poll_duration_seconds"@,
        task_metric_description(TaskMetric::SlowPollDuration) == "The total duration of slow polls"@,
        task_metric_type(TaskMetric::SlowPollDuration) == MetricType::Counter,
        task_metric_name(TaskMetric::MeanFirstPollDelay) == "mean_first_poll_delay_seconds"@,
        task_metric_description(TaskMetric::MeanFirstPollDelay) == "The mean duration elapsed between the instant tasks are instrumented, and the instant they are first polled"@,
        task_metric_type(TaskMetric::MeanFirstPollDelay) == MetricType::Gauge,
        task_metric_name(TaskMetric::MeanIdleDuration) == "mean_idle_duration_seconds"@,
        task_metric_description(TaskMetric::MeanIdleDuration) == "The mean duration of idles"@,
        task_metric_type(TaskMetric::MeanIdleDuration) == MetricType::Gauge,
        task_metric_name(TaskMetric::MeanScheduledDuration) == "mean_scheduled_duration_seconds"@,
        task_metric_description(TaskMetric::MeanScheduledDuration) == "The mean duration that tasks spent waiting to be executed after awakening"@,
        task_metric_type(TaskMetric::MeanScheduledDuration) == MetricType::Gauge,
        task_metric_name(TaskMetric::MeanPollDuration) == "mean_poll_duration_seconds"@,
        task_metric_description(TaskMetric::MeanPollDuration) == "The mean duration of polls"@,
        task_metric_type(TaskMetric::MeanPollDuration) == MetricType::Gauge,
        task_metric_name(TaskMetric::SlowPollRatio) == "slow_poll_ratio"@,
        task_metric_description(TaskMetric::SlowPollRatio) == "The ratio between the number of polls categorized as slow or fast"@,
        task_metric_type(TaskMetric::SlowPollRatio) == MetricType::Gauge,
        task_metric_name(TaskMetric::MeanFastPollDuration) == "mean_fast_poll_duration_seconds"@,
        task_metric_description(TaskMetric::MeanFastPollDuration) == "The mean duration of fast_polls"@,
        task_metric_type(TaskMetric::MeanFastPollDuration) == MetricType::Gauge,
        task_metric_name(TaskMetric::MeanSlowPollDuration) == "mean_slow_poll_duration_seconds"@,
        task_metric_description(TaskMetric::MeanSlowPollDuration) == "The mean duration of slow_polls"@,
        task_metric_type(TaskMetric::MeanSlowPollDuration) == MetricType::Gauge,
{
}

} // verus!
