//! Prometheus collectors for tokio task and runtime metrics.
//!
//! The library keeps the state that the collectors read from tokio's monitors,
//! decides what each Prometheus metric reports, and checks encoded output
//! against an expected exposition.

pub mod sample;
pub mod runtime;
pub mod task;
pub mod approx;

pub use runtime::RuntimeCollector;
pub use task::{TaskCollector, MONITOR};
pub use approx::{assert_approx_output, compare_approx_output};


