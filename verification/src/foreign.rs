//! Types of other crates that values of this crate hold or return.

use vstd::prelude::*;

verus! {

/// The server's instance states, as `runtara_management_sdk` defines them.
#[verifier::external_type_specification]
pub struct ExInstanceStatus(runtara_management_sdk::InstanceStatus);

/// The bucket width of a metrics query, as `runtara_management_sdk` defines it.
#[verifier::external_type_specification]
pub struct ExMetricsGranularity(runtara_management_sdk::MetricsGranularity);

/// The kind of runner an image is built for, as `runtara_management_sdk` defines it.
#[verifier::external_type_specification]
pub struct ExRunnerType(runtara_management_sdk::RunnerType);

/// The server's report on itself, as `runtara_management_sdk` defines it.
#[verifier::external_type_specification]
pub struct ExHealthStatus(runtara_management_sdk::HealthStatus);

/// One time bucket of aggregated metrics. Its averages are floating-point
/// numbers, so a bucket is carried through unread.
#[verifier::external_type_specification]
#[verifier::external_body]
pub struct ExMetricsBucket(runtara_management_sdk::MetricsBucket);

/// A JSON document. Payloads are carried through unread.
#[verifier::external_type_specification]
#[verifier::external_body]
pub struct ExJsonValue(serde_json::Value);

/// The terminal colours of `ratatui`.
#[verifier::external_type_specification]
pub struct ExColor(ratatui::style::Color);

} // verus!
