//! The plain values that a collector hands out for encoding.
use vstd::prelude::*;

verus! {

/// The Prometheus type of a metric.
#[derive(Clone, Copy, Debug, PartialEq, Eq, Structural)]
pub enum MetricType {
    Counter,
    Gauge,
}

/// The value of the `measurement` label of the metrics that report a
/// minimum, a maximum and a total across the runtime's workers.
#[derive(Clone, Copy, Debug, PartialEq, Eq, Structural)]
pub enum Measurement {
    Min,
    Max,
    Total,
}

/// One value of a metric, before it is encoded.
#[derive(Clone, Copy, Debug, PartialEq, Eq, Structural)]
pub enum SampleValue {
    /// An integer value, encoded as is.
    Count(u64),
    /// A duration in nanoseconds, encoded in seconds.
    Seconds(u128),
    /// The inputs of tokio's mean number of polls per park:
    /// `polls / (parks - noops)`, or zero where that difference is zero.
    PollsPerPark { polls: u64, parks: u64, noops: u64 },
    /// The inputs of tokio's busy ratio: `busy / elapsed`, both in nanoseconds
    /// and both accumulated over the same intervals.
    BusyRatio { busy_nanos: u128, elapsed_nanos: u128 },
    /// The inputs of tokio's slow poll ratio: `slow / total`.
    SlowPollRatio { slow: u64, total: u64 },
}

/// A value together with its `measurement` label, where it has one.
#[derive(Clone, Copy, Debug, PartialEq, Eq, Structural)]
pub struct Sample {
    pub measurement: Option<Measurement>,
    pub value: SampleValue,
}

/// A sample without a `measurement` label.
pub open spec fn unlabelled(value: SampleValue) -> Sample {
    Sample { measurement: None, value }
}

/// The three samples of a metric that reports a minimum, a maximum and a total,
/// in that order.
pub open spec fn min_max_total(min: SampleValue, max: SampleValue, total: SampleValue) -> Seq<Sample> {
    seq![
        Sample { measurement: Some(Measurement::Min), value: min },
        Sample { measurement: Some(Measurement::Max), value: max },
        Sample { measurement: Some(Measurement::Total), value: total },
    ]
}

/// The text of a `measurement` label's value.
pub open spec fn measurement_text(m: Measurement) -> Seq<char> {
    match m {
        Measurement::Min => "min"@,
        Measurement::Max => "max"@,
        Measurement::Total => "total"@,
    }
}

impl Measurement {
    /// The text of this label value, as it appears in the encoded output.
    pub fn as_str(&self) -> (r: &'static str)
        ensures
            r@ == measurement_text(*self),
    {
        match self {
            Measurement::Min => "min",
            Measurement::Max => "max",
            Measurement::Total => "total",
        }
    }
}

/// A sample without a `measurement` label.
pub fn single(value: SampleValue) -> (r: Vec<Sample>)
    ensures
        r@ == seq![unlabelled(value)],
{
    vec![Sample { measurement: None, value }]
}

/// The three samples of a minimum, a maximum and a total.
pub fn triple(min: SampleValue, max: SampleValue, total: SampleValue) -> (r: Vec<Sample>)
    ensures
        r@ == min_max_total(min, max, total),
{
    vec![
        Sample { measurement: Some(Measurement::Min), value: min },
        Sample { measurement: Some(Measurement::Max), value: max },
        Sample { measurement: Some(Measurement::Total), value: total },
    ]
}

/// The largest duration that `std::time::Duration` holds, in nanoseconds:
/// `u64::MAX` seconds and 999_999_999 nanoseconds.
pub const MAX_DURATION_NANOS: u128 = 18_446_744_073_709_551_615_999_999_999u128;

/// Splits a duration in nanoseconds into whole seconds and the nanoseconds
/// that remain, as `std::time::Duration` holds it; `None` where the duration is
/// longer than a `Duration` can be.
pub fn split_nanos(nanos: u128) -> (r: Option<(u64, u32)>)
    ensures
        nanos <= MAX_DURATION_NANOS <==> r is Some,
        r matches Some((secs, sub)) ==> sub < 1_000_000_000 && secs * 1_000_000_000 + sub == nanos,
{
    if nanos > MAX_DURATION_NANOS {
        return None;
    }
    let secs = nanos / 1_000_000_000;
    let sub = nanos % 1_000_000_000;
    assert(secs <= u64::MAX) by (nonlinear_arith)
        requires
            secs == nanos / 1_000_000_000,
            nanos <= 18_446_744_073_709_551_615_999_999_999,
    ;
    assert(secs * 1_000_000_000 + sub == nanos) by (nonlinear_arith)
        requires
            secs == nanos / 1_000_000_000,
            sub == nanos % 1_000_000_000,
    ;
    Some((secs as u64, sub as u32))
}

} // verus!
