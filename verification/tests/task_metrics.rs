use tokio_metrics::TaskMonitor;
use tokio_metrics_prometheus::sample::{MetricType, SampleValue};
use tokio_metrics_prometheus::task::{mean_duration_nanos, TaskMetric};
use tokio_metrics_prometheus::{TaskCollector, MONITOR};

#[test]
fn collector_labels_with_its_name() {
    let collector = TaskCollector::new("my_task", TaskMonitor::new());
    assert_eq!(collector.name(), "my_task");
    assert_eq!(collector.label_set(), ("monitor", "my_task"));
    assert_eq!(MONITOR, "monitor");
}

#[test]
fn fresh_monitor_reports_zero() {
    let collector = TaskCollector::new("idle", TaskMonitor::new());
    assert_eq!(collector.value(TaskMetric::InstrumentedCount), SampleValue::Count(0));
    assert_eq!(collector.value(TaskMetric::PollDuration), SampleValue::Seconds(0));
    assert_eq!(collector.value(TaskMetric::MeanPollDuration), SampleValue::Seconds(0));
    assert_eq!(
        collector.value(TaskMetric::SlowPollRatio),
        SampleValue::SlowPollRatio { slow: 0, total: 0 }
    );
}

#[test]
fn refresh_reads_the_monitor_again() {
    let monitor = TaskMonitor::new();
    let mut collector = TaskCollector::new("worker", monitor.clone());
    let rt = tokio::runtime::Builder::new_current_thread().build().unwrap();
    rt.block_on(monitor.instrument(async {}));
    rt.block_on(monitor.instrument(async {}));
    // Until it is refreshed, the collector reports what it read first.
    assert_eq!(collector.value(TaskMetric::InstrumentedCount), SampleValue::Count(0));
    collector.refresh();
    assert_eq!(collector.value(TaskMetric::InstrumentedCount), SampleValue::Count(2));
    assert_eq!(collector.value(TaskMetric::DroppedCount), SampleValue::Count(2));
    assert_eq!(collector.value(TaskMetric::FirstPollCount), SampleValue::Count(2));
    assert_eq!(collector.value(TaskMetric::PollCount), SampleValue::Count(2));
    let s = *collector.get();
    assert_eq!(s.total_poll_count, 2);
    assert_eq!(
        collector.value(TaskMetric::MeanPollDuration),
        SampleValue::Seconds((s.total_poll_duration_nanos as u64 / 2) as u128)
    );
    assert_eq!(
        collector.value(TaskMetric::SlowPollRatio),
        SampleValue::SlowPollRatio { slow: s.total_slow_poll_count, total: 2 }
    );
    assert_eq!(collector.name(), "worker");
}

#[test]
fn mean_durations() {
    assert_eq!(mean_duration_nanos(10, 3), 3);
    assert_eq!(mean_duration_nanos(9, 3), 3);
    assert_eq!(mean_duration_nanos(10, 0), 0);
    assert_eq!(mean_duration_nanos(0, 7), 0);
    // tokio reads the total in nanoseconds with wrapping 64-bit arithmetic.
    assert_eq!(mean_duration_nanos((1u128 << 64) + 10, 5), 2);
}

const EXPECTED: [(&str, &str); 21] = [
    ("instrumented_count", "counter"),
    ("dropped_count", "counter"),
    ("first_poll_count", "counter"),
    ("first_poll_delay_seconds", "counter"),
    ("idled_count", "counter"),
    ("idle_duration_seconds", "counter"),
    ("scheduled_count", "counter"),
    ("scheduled_duration_seconds", "counter"),
    ("poll_count", "counter"),
    ("poll_duration_seconds", "counter"),
    ("fast_poll_count", "counter"),
    ("fast_poll_duration_seconds", "counter"),
    ("slow_poll_count", "counter"),
    ("slow_poll_duration_seconds", "counter"),
    ("mean_first_poll_delay_seconds", "gauge"),
    ("mean_idle_duration_seconds", "gauge"),
    ("mean_scheduled_duration_seconds", "gauge"),
    ("mean_poll_duration_seconds", "gauge"),
    ("slow_poll_ratio", "gauge"),
    ("mean_fast_poll_duration_seconds", "gauge"),
    ("mean_slow_poll_duration_seconds", "gauge"),
];

#[test]
fn task_registration_order_names_and_types() {
    let collector = TaskCollector::new("t", TaskMonitor::new());
    let metrics = collector.metrics();
    assert_eq!(metrics.len(), EXPECTED.len());
    for (metric, (name, kind)) in metrics.iter().zip(EXPECTED.iter()) {
        assert_eq!(metric.name(), *name);
        let t = match metric.metric_type() {
            MetricType::Counter => "counter",
            MetricType::Gauge => "gauge",
        };
        assert_eq!(t, *kind);
        assert!(!metric.description().is_empty());
    }
    assert_eq!(metrics[0].description(), "The number of tasks instrumented");
    assert_eq!(
        metrics[18].description(),
        "The ratio between the number of polls categorized as slow or fast"
    );
}

#[test]
fn only_instrumented_count_refreshes() {
    let collector = TaskCollector::new("t", TaskMonitor::new());
    let metrics = collector.metrics();
    assert!(metrics[0].refreshes());
    assert_eq!(metrics[0], TaskMetric::InstrumentedCount);
    assert!(metrics[1..].iter().all(|m| !m.refreshes()));
}

#[test]
fn task_metric_names_are_distinct() {
    let collector = TaskCollector::new("t", TaskMonitor::new());
    let names: std::collections::HashSet<&str> = collector.metrics().iter().map(|m| m.name()).collect();
    assert_eq!(names.len(), 21);
}
