# tokio_metrics_prometheus

Prometheus collectors for tokio task and runtime metrics, verified with Verus.

## Layout

- `src/` — the verified library.
  - `sample.rs`: the values a collector hands out for encoding (metric type,
    `measurement` label, sample values) and the split of a duration into
    seconds and nanoseconds.
  - `runtime.rs`: the runtime metrics as plain values, their accumulation
    from one interval to the next (gauges replaced; counters, durations and
    the elapsed time summed), the
    thirteen runtime metrics (name, help, type, which one refreshes, what each
    reports) and `RuntimeCollector`, with the laws they keep.
  - `task.rs`: the task collector, which reads tokio's cumulative task metrics
    from a `tokio_metrics::TaskMonitor`, the twenty-one task metrics and tokio's
    mean durations, with their laws.
  - `approx.rs`: `compare_approx_output`, the line-by-line comparison of an
    encoded exposition with an expected one, and `assert_approx_output`, which
    requires that they agree and hands back the values compared approximately.
- `app/` — the `prometheus_client` side: the `EncodeMetric` implementations,
  registration into a `Registry`, and the floating-point conversions.
  tokio-metrics 0.1 only offers `RuntimeMonitor` when tokio is built with
  `--cfg tokio_unstable`, so the runtime collector that reads one is compiled
  under that flag only.
- `tests/` — tests of the library on concrete values.
