//! The records that the dashboard shows.
//!
//! Points in time are whole seconds since the Unix epoch, UTC.

use runtara_management_sdk::{InstanceStatus, MetricsBucket, RunnerType};
use serde_json::Value;
use vstd::prelude::*;

verus! {

/// One row of the instance list.
#[derive(Debug, PartialEq, Eq)]
pub struct InstanceSummary {
    pub instance_id: String,
    pub tenant_id: String,
    pub image_id: String,
    pub status: InstanceStatus,
    pub created_at: i64,
    pub finished_at: Option<i64>,
}

/// One row of the image list.
#[derive(Debug, PartialEq, Eq)]
pub struct ImageSummary {
    pub image_id: String,
    pub name: String,
    pub tenant_id: String,
    pub runner_type: RunnerType,
    pub created_at: i64,
    pub description: Option<String>,
}

/// The full record of one instance.
#[derive(Debug, PartialEq, Eq)]
pub struct InstanceInfo {
    pub instance_id: String,
    pub status: InstanceStatus,
    pub tenant_id: String,
    pub image_id: String,
    pub image_name: String,
    pub created_at: i64,
    pub started_at: Option<i64>,
    pub finished_at: Option<i64>,
    pub heartbeat_at: Option<i64>,
    pub checkpoint_id: Option<String>,
    pub retry_count: u32,
    pub max_retries: u32,
    pub input: Option<Value>,
    pub output: Option<Value>,
    pub error: Option<String>,
}

/// One row of the checkpoint list.
#[derive(Debug, PartialEq, Eq)]
pub struct CheckpointSummary {
    pub checkpoint_id: String,
    pub instance_id: String,
    pub created_at: i64,
    pub data_size_bytes: u64,
}

/// The full record of one checkpoint, with its payload.
#[derive(Debug, PartialEq, Eq)]
pub struct Checkpoint {
    pub checkpoint_id: String,
    pub instance_id: String,
    pub created_at: i64,
    pub data: Value,
}

/// Usage metrics of one tenant over a time range, one bucket per hour or day.
#[derive(Debug)]
pub struct TenantMetrics {
    pub start_time: i64,
    pub end_time: i64,
    pub buckets: Vec<MetricsBucket>,
}

/// The instances that one list request brought, and how many the server has.
#[derive(Debug)]
pub struct InstancePage {
    pub items: Vec<InstanceSummary>,
    pub total_count: u32,
}

/// The images that one list request brought, and how many the server has.
#[derive(Debug)]
pub struct ImagePage {
    pub items: Vec<ImageSummary>,
    pub total_count: u32,
}

/// The checkpoints that one list request brought, and how many the server has.
#[derive(Debug)]
pub struct CheckpointPage {
    pub items: Vec<CheckpointSummary>,
    pub total_count: u32,
}

} // verus!
