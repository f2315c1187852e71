use tokio_metrics_prometheus::runtime::{
    accumulate_metrics, can_accumulate, CachedMonitor, RuntimeMetric, RuntimeSnapshot,
};
use tokio_metrics_prometheus::sample::{
    split_nanos, Measurement, MetricType, Sample, SampleValue, MAX_DURATION_NANOS,
};
use tokio_metrics_prometheus::RuntimeCollector;

/// An interval whose every field is derived from `base`, each one distinct.
fn interval(base: u64) -> RuntimeSnapshot {
    RuntimeSnapshot {
        workers_count: base as usize + 1,
        total_park_count: base + 2,
        max_park_count: base + 3,
        min_park_count: base + 4,
        total_noop_count: base + 5,
        max_noop_count: base + 6,
        min_noop_count: base + 7,
        total_steal_count: base + 8,
        max_steal_count: base + 9,
        min_steal_count: base + 10,
        num_remote_schedules: base + 11,
        total_local_schedule_count: base + 12,
        max_local_schedule_count: base + 13,
        min_local_schedule_count: base + 14,
        total_overflow_count: base + 15,
        max_overflow_count: base + 16,
        min_overflow_count: base + 17,
        total_polls_count: base + 18,
        max_polls_count: base + 19,
        min_polls_count: base + 20,
        total_busy_duration_nanos: base as u128 + 21,
        max_busy_duration_nanos: base as u128 + 22,
        min_busy_duration_nanos: base as u128 + 23,
        injection_queue_depth: base as usize + 24,
        total_local_queue_depth: base as usize + 25,
        max_local_queue_depth: base as usize + 26,
        min_local_queue_depth: base as usize + 27,
        elapsed_nanos: base as u128 + 28,
    }
}

#[test]
fn accumulate_sums_counters_and_replaces_gauges() {
    let mut current = interval(100);
    let new = interval(1000);
    assert!(can_accumulate(&current, &new));
    accumulate_metrics(&mut current, new);
    // Gauges take the new values.
    assert_eq!(current.workers_count, 1001);
    assert_eq!(current.injection_queue_depth, 1024);
    // The elapsed time adds up, as the busy durations do.
    assert_eq!(current.elapsed_nanos, 128 + 1028);
    // Counters, durations and queue depths add up.
    assert_eq!(current.total_park_count, 102 + 1002);
    assert_eq!(current.max_park_count, 103 + 1003);
    assert_eq!(current.min_park_count, 104 + 1004);
    assert_eq!(current.total_noop_count, 105 + 1005);
    assert_eq!(current.min_steal_count, 110 + 1010);
    assert_eq!(current.num_remote_schedules, 111 + 1011);
    assert_eq!(current.max_local_schedule_count, 113 + 1013);
    assert_eq!(current.total_overflow_count, 115 + 1015);
    assert_eq!(current.min_polls_count, 120 + 1020);
    assert_eq!(current.total_busy_duration_nanos, 121 + 1021);
    assert_eq!(current.min_busy_duration_nanos, 123 + 1023);
    assert_eq!(current.total_local_queue_depth, 125 + 1025);
    assert_eq!(current.min_local_queue_depth, 127 + 1027);
}

#[test]
fn can_accumulate_refuses_counter_overflow() {
    let current = interval(0);
    let mut new = interval(0);
    new.total_polls_count = u64::MAX - 18;
    assert!(can_accumulate(&current, &new));
    new.total_polls_count = u64::MAX - 17;
    assert!(!can_accumulate(&current, &new));
}

#[test]
fn can_accumulate_refuses_duration_overflow() {
    let current = interval(0);
    let mut new = interval(0);
    new.max_busy_duration_nanos = MAX_DURATION_NANOS - 22;
    assert!(can_accumulate(&current, &new));
    new.max_busy_duration_nanos = MAX_DURATION_NANOS - 21;
    assert!(!can_accumulate(&current, &new));
}

#[test]
fn can_accumulate_ignores_gauges() {
    let current = interval(0);
    let mut new = interval(0);
    new.workers_count = usize::MAX;
    new.injection_queue_depth = usize::MAX;
    assert!(can_accumulate(&current, &new));
}

#[test]
fn can_accumulate_refuses_elapsed_overflow() {
    let current = interval(0);
    let mut new = interval(0);
    new.elapsed_nanos = MAX_DURATION_NANOS - 28;
    assert!(can_accumulate(&current, &new));
    new.elapsed_nanos = MAX_DURATION_NANOS - 27;
    assert!(!can_accumulate(&current, &new));
}

#[test]
fn busy_ratio_inputs_cover_the_same_span() {
    let mut reading = interval(0);
    reading.total_busy_duration_nanos = 10;
    reading.elapsed_nanos = 10;
    let mut collector = RuntimeCollector::new(reading);
    collector.refresh(reading);
    assert_eq!(
        collector.samples(RuntimeMetric::BusyRatio),
        vec![Sample {
            measurement: None,
            value: SampleValue::BusyRatio { busy_nanos: 20, elapsed_nanos: 20 }
        }]
    );
}

#[test]
fn cached_monitor_starts_from_first_interval() {
    let mut cached = CachedMonitor::new(interval(5));
    assert_eq!(*cached.get(), interval(5));
    cached.refresh(interval(7));
    assert_eq!(cached.get().total_park_count, 7 + 9);
    assert_eq!(cached.get().workers_count, 8);
    assert_eq!(cached.get().elapsed_nanos, 33 + 35);
}

#[test]
fn collector_counters_sum_over_intervals() {
    let mut collector = RuntimeCollector::new(interval(1));
    for base in [10u64, 20, 30] {
        let next = interval(base);
        assert!(collector.can_refresh(&next));
        collector.refresh(next);
    }
    let s = collector.get();
    assert_eq!(s.total_park_count, 3 + 12 + 22 + 32);
    assert_eq!(s.elapsed_nanos, 29 + 38 + 48 + 58);
    assert_eq!(s.workers_count, 31);
}

const EXPECTED_HELP: [(&str, &str, &str); 13] = [
    ("workers_count", "The number of worker threads.", "gauge"),
    ("park_count", "The number of times worker threads parked.", "counter"),
    (
        "noop_count",
        "The number of times worker threads unparked but performed no work before parking again.",
        "counter",
    ),
    (
        "steal_count",
        "The number of times worker threads stole tasks from another worker thread.",
        "counter",
    ),
    ("remote_schedule_count", "The number of tasks scheduled from **outside** of the runtime.", "counter"),
    ("local_schedule_count", "The number of tasks scheduled from worker threads.", "counter"),
    ("overflow_count", "The number of times worker threads saturated their local queues.", "counter"),
    (
        "polls_count",
        "The number of tasks that have been polled across all worker threads.",
        "counter",
    ),
    ("busy_duration_seconds", "The amount of time worker threads were busy.", "counter"),
    (
        "injection_queue_depth",
        "The number of tasks currently scheduled in the runtime's injection queue.",
        "gauge",
    ),
    (
        "local_queue_depth",
        "The total number of tasks currently scheduled in workers' local queues.",
        "counter",
    ),
    ("mean_polls_per_park", "The mean number of polls per park.", "gauge"),
    ("busy_ratio", "The proportion of time spent polling for tasks.", "gauge"),
];

#[test]
fn registration_order_names_and_help() {
    let collector = RuntimeCollector::new(interval(0));
    let metrics = collector.metrics();
    assert_eq!(metrics.len(), EXPECTED_HELP.len());
    for (metric, (name, help, kind)) in metrics.iter().zip(EXPECTED_HELP.iter()) {
        assert_eq!(metric.name(), *name);
        // The registry appends a full stop to the help text.
        assert_eq!(format!("{}.", metric.description()), *help);
        let t = match metric.metric_type() {
            MetricType::Counter => "counter",
            MetricType::Gauge => "gauge",
        };
        assert_eq!(t, *kind);
    }
}

#[test]
fn only_workers_count_refreshes() {
    let collector = RuntimeCollector::new(interval(0));
    let metrics = collector.metrics();
    assert!(metrics[0].refreshes());
    assert_eq!(metrics[0], RuntimeMetric::WorkersCount);
    assert!(metrics[1..].iter().all(|m| !m.refreshes()));
}

#[test]
fn min_max_total_samples_in_order() {
    let collector = RuntimeCollector::new(interval(0));
    let samples = collector.samples(RuntimeMetric::ParkCount);
    assert_eq!(
        samples,
        vec![
            Sample { measurement: Some(Measurement::Min), value: SampleValue::Count(4) },
            Sample { measurement: Some(Measurement::Max), value: SampleValue::Count(3) },
            Sample { measurement: Some(Measurement::Total), value: SampleValue::Count(2) },
        ]
    );
    let labels: Vec<&str> = samples.iter().map(|s| s.measurement.unwrap().as_str()).collect();
    assert_eq!(labels, vec!["min", "max", "total"]);
}

#[test]
fn busy_duration_and_queue_depth_samples() {
    let collector = RuntimeCollector::new(interval(0));
    assert_eq!(
        collector.samples(RuntimeMetric::BusyDuration),
        vec![
            Sample { measurement: Some(Measurement::Min), value: SampleValue::Seconds(23) },
            Sample { measurement: Some(Measurement::Max), value: SampleValue::Seconds(22) },
            Sample { measurement: Some(Measurement::Total), value: SampleValue::Seconds(21) },
        ]
    );
    assert_eq!(
        collector.samples(RuntimeMetric::LocalQueueDepth),
        vec![
            Sample { measurement: Some(Measurement::Min), value: SampleValue::Count(27) },
            Sample { measurement: Some(Measurement::Max), value: SampleValue::Count(26) },
            Sample { measurement: Some(Measurement::Total), value: SampleValue::Count(25) },
        ]
    );
}

#[test]
fn single_value_samples() {
    let collector = RuntimeCollector::new(interval(0));
    let one = |v| vec![Sample { measurement: None, value: v }];
    assert_eq!(collector.samples(RuntimeMetric::WorkersCount), one(SampleValue::Count(1)));
    assert_eq!(collector.samples(RuntimeMetric::RemoteScheduleCount), one(SampleValue::Count(11)));
    assert_eq!(collector.samples(RuntimeMetric::InjectionQueueDepth), one(SampleValue::Count(24)));
    assert_eq!(
        collector.samples(RuntimeMetric::MeanPollsPerPark),
        one(SampleValue::PollsPerPark { polls: 18, parks: 2, noops: 5 })
    );
    assert_eq!(
        collector.samples(RuntimeMetric::BusyRatio),
        one(SampleValue::BusyRatio { busy_nanos: 21, elapsed_nanos: 28 })
    );
}

#[test]
fn samples_follow_refresh() {
    let mut collector = RuntimeCollector::new(interval(0));
    collector.refresh(interval(100));
    assert_eq!(
        collector.samples(RuntimeMetric::StealCount)[2],
        Sample { measurement: Some(Measurement::Total), value: SampleValue::Count(8 + 108) }
    );
    assert_eq!(
        collector.samples(RuntimeMetric::WorkersCount),
        vec![Sample { measurement: None, value: SampleValue::Count(101) }]
    );
}

#[test]
fn split_nanos_into_seconds() {
    assert_eq!(split_nanos(0), Some((0, 0)));
    assert_eq!(split_nanos(246_749), Some((0, 246_749)));
    assert_eq!(split_nanos(3_000_000_007), Some((3, 7)));
    assert_eq!(split_nanos(MAX_DURATION_NANOS), Some((u64::MAX, 999_999_999)));
    assert_eq!(split_nanos(MAX_DURATION_NANOS + 1), None);
}

#[test]
fn runtime_metric_names_are_distinct() {
    let collector = RuntimeCollector::new(interval(0));
    let names: std::collections::HashSet<&str> = collector.metrics().iter().map(|m| m.name()).collect();
    assert_eq!(names.len(), 13);
}

#[test]
fn collectors_do_not_share_state() {
    let mut first = RuntimeCollector::new(interval(0));
    let second = RuntimeCollector::new(interval(0));
    first.refresh(interval(50));
    first.refresh(interval(60));
    assert_eq!(*second.get(), interval(0));
    assert_eq!(first.get().total_park_count, 2 + 52 + 62);
    assert_eq!(
        second.samples(RuntimeMetric::ParkCount)[2],
        Sample { measurement: Some(Measurement::Total), value: SampleValue::Count(2) }
    );
}

#[test]
fn counter_samples_never_decrease() {
    let mut collector = RuntimeCollector::new(interval(3));
    let before: Vec<Vec<Sample>> =
        collector.metrics().iter().map(|m| collector.samples(*m)).collect();
    collector.refresh(interval(0));
    for (m, old) in collector.metrics().iter().zip(before.iter()) {
        if m.metric_type() != MetricType::Counter {
            continue;
        }
        for (new, old) in collector.samples(*m).iter().zip(old.iter()) {
            match (new.value, old.value) {
                (SampleValue::Count(n), SampleValue::Count(o)) => assert!(n >= o),
                (SampleValue::Seconds(n), SampleValue::Seconds(o)) => assert!(n >= o),
                _ => panic!("a counter reports a count or a duration"),
            }
        }
    }
}
