//! What the dashboard asks of whoever talks to the server.

use runtara_management_sdk::{InstanceStatus, MetricsGranularity};
use vstd::prelude::*;

verus! {

/// The most rows that one list request asks for.
pub const PAGE_LIMIT: u32 = 100;

/// One call to the server. The caller performs it and hands the outcome to
/// the method of [`crate::App`] that the variant names.
#[derive(Debug, PartialEq, Eq)]
#[allow(inconsistent_fields)]
pub enum Request {
    /// Set up a client and reach the server; answered to `connected`.
    Connect,
    /// Answered to `health_fetched`.
    HealthCheck,
    /// Answered to `instances_fetched`.
    ListInstances { tenant_id: Option<String>, status: Option<InstanceStatus>, limit: u32 },
    /// Answered to `images_fetched`.
    ListImages { tenant_id: Option<String>, limit: u32 },
    /// Answered to `metrics_fetched`.
    GetTenantMetrics { tenant_id: String, granularity: MetricsGranularity },
    /// Answered to `instance_fetched`.
    GetInstance { instance_id: String },
    /// Answered to `checkpoints_fetched`.
    ListCheckpoints { instance_id: String, limit: u32 },
    /// Answered to `checkpoint_fetched`.
    GetCheckpoint { instance_id: String, checkpoint_id: String },
}

/// What a chain of requests is for. It begins with `Request::Connect` and
/// then goes on as the dashboard says after each answer.
#[derive(Debug, Clone, Copy, PartialEq, Eq, Structural)]
pub enum Operation {
    /// Fetch the data of the base frame anew.
    Refresh,
    /// Open the selected instance.
    OpenInstance,
    /// Open the checkpoints of the open instance.
    OpenCheckpoints,
    /// Open the selected checkpoint.
    OpenCheckpoint,
}

/// A copy of an optional text.
pub fn copy_of(text: &Option<String>) -> (copy: Option<String>)
    ensures
        copy == *text,
{
    match text {
        Some(t) => Some(t.clone()),
        None => None,
    }
}

} // verus!
