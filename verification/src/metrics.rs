//! The metrics pipeline: immutable lifecycle events per request, the
//! per-executor capture that emits them, and the aggregators that consume
//! them.

pub mod capture;
pub mod computed_metrics;
pub mod metrics_summary;
pub mod request_metric;
