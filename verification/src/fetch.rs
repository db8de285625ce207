//! The refresh cycle and the opening of detail frames.
//!
//! Each of them is a chain of requests. The dashboard says what to ask next;
//! the caller asks, and hands the answer to the method named after the
//! request. The caller runs one chain at a time.

use crate::app::App;
use crate::error::{AppError, ConnectError, Fetch};
use crate::records::{
    Checkpoint, CheckpointPage, ImagePage, InstanceInfo, InstancePage, TenantMetrics,
};
use crate::request::{copy_of, Operation, Request, PAGE_LIMIT};
use crate::selection::clamp;
use crate::tab::ViewMode;
use runtara_management_sdk::HealthStatus;
use vstd::prelude::*;

verus! {

impl App {
    /// Whether `operation` may begin in this state.
    pub fn may_start(&self, operation: Operation) -> (allowed: bool)
        ensures
            allowed == self@.may_start(operation),
    {
        match operation {
            Operation::Refresh => true,
            Operation::OpenInstance => self.view_mode == ViewMode::List && self.instances.len()
                > 0,
            Operation::OpenCheckpoints => self.view_mode == ViewMode::InstanceDetail
                && self.instance_detail.is_some(),
            Operation::OpenCheckpoint => self.view_mode == ViewMode::CheckpointsList
                && self.checkpoints.len() > 0,
        }
    }

    /// Begins a refresh cycle: empties the error slot and asks for a
    /// connection.
    pub fn refresh(&mut self) -> (first: Request)
        ensures
            final(self)@ == old(self)@.start(Operation::Refresh),
            Some(first) == old(self)@.first_request(Operation::Refresh),
            old(self).wf() ==> final(self).wf(),
    {
        self.error = None;
        Request::Connect
    }

    /// Begins to open the selected instance, from the base frame and where
    /// the instance list has rows; else there is nothing to ask.
    pub fn open_instance_detail(&self) -> (first: Option<Request>)
        ensures
            first == self@.first_request(Operation::OpenInstance),
    {
        if self.may_start(Operation::OpenInstance) {
            Some(Request::Connect)
        } else {
            None
        }
    }

    /// Begins to open the checkpoints of the open instance, from the instance
    /// frame; else there is nothing to ask.
    pub fn open_checkpoints_list(&self) -> (first: Option<Request>)
        ensures
            first == self@.first_request(Operation::OpenCheckpoints),
    {
        if self.may_start(Operation::OpenCheckpoints) {
            Some(Request::Connect)
        } else {
            None
        }
    }

    /// Begins to open the selected checkpoint, from the checkpoint list and
    /// where it has rows; else there is nothing to ask.
    pub fn open_checkpoint_detail(&self) -> (first: Option<Request>)
        ensures
            first == self@.first_request(Operation::OpenCheckpoint),
    {
        if self.may_start(Operation::OpenCheckpoint) {
            Some(Request::Connect)
        } else {
            None
        }
    }

    /// Takes the answer to `Request::Connect` within `operation` and says
    /// what to ask next.
    ///
    /// A failure ends the chain. Within a refresh it also clears the
    /// connection flag and ends the cycle at `now`; nothing that was on
    /// display changes. A success within a refresh sets the flag and asks for
    /// the server's health; within the opening of a frame it asks for what
    /// the frame shows, if the frame may still be opened.
    pub fn connected(
        &mut self,
        operation: Operation,
        outcome: Result<(), ConnectError>,
        now: u64,
    ) -> (next: Option<Request>)
        requires
            old(self).wf(),
        ensures
            final(self)@ == old(self)@.connected(operation, outcome, now),
            next == old(self)@.request_after_connect(operation, outcome),
            final(self).wf(),
    {
        match outcome {
            Err(error) => {
                self.error = Some(AppError::from_connect(error));
                match operation {
                    Operation::Refresh => {
                        self.connected = false;
                        self.last_refresh = Some(now);
                    },
                    _ => {},
                }
                None
            },
            Ok(_) => {
                if !self.may_start(operation) {
                    return None;
                }
                match operation {
                    Operation::Refresh => {
                        self.connected = true;
                        Some(Request::HealthCheck)
                    },
                    Operation::OpenInstance => {
                        let row = &self.instances[self.instances_selected];
                        Some(Request::GetInstance { instance_id: row.instance_id.clone() })
                    },
                    Operation::OpenCheckpoints => {
                        match &self.instance_detail {
                            Some(info) => Some(
                                Request::ListCheckpoints {
                                    instance_id: info.instance_id.clone(),
                                    limit: PAGE_LIMIT,
                                },
                            ),
                            None => None,
                        }
                    },
                    Operation::OpenCheckpoint => {
                        let row = &self.checkpoints[self.checkpoints_selected];
                        Some(
                            Request::GetCheckpoint {
                                instance_id: row.instance_id.clone(),
                                checkpoint_id: row.checkpoint_id.clone(),
                            },
                        )
                    },
                }
            },
        }
    }

    /// Takes the answer to `Request::HealthCheck` and asks for the instance
    /// list, filtered by the tenant and the status filter. A failure is
    /// noted in the error slot and leaves the last report on display.
    pub fn health_fetched(&mut self, outcome: Result<HealthStatus, String>) -> (next: Option<
        Request,
    >)
        ensures
            final(self)@ == old(self)@.health_fetched(outcome),
            next == Some(old(self)@.instances_request()),
            old(self).wf() ==> final(self).wf(),
    {
        match outcome {
            Ok(health) => {
                self.health = Some(health);
            },
            Err(detail) => {
                self.error = Some(AppError::Request(Fetch::Health, detail));
            },
        }
        Some(
            Request::ListInstances {
                tenant_id: copy_of(&self.tenant_id),
                status: self.status_filter.to_instance_status(),
                limit: PAGE_LIMIT,
            },
        )
    }

    /// Takes the answer to `Request::ListInstances` and asks for the image
    /// list. A page replaces the rows and the count, and the cursor stays on
    /// its row or goes to the last one; a failure is noted in the error slot
    /// and leaves the rows on display.
    pub fn instances_fetched(&mut self, outcome: Result<InstancePage, String>) -> (next: Option<
        Request,
    >)
        ensures
            final(self)@ == old(self)@.instances_fetched(outcome),
            next == Some(old(self)@.images_request()),
            old(self).wf() ==> final(self).wf(),
    {
        match outcome {
            Ok(page) => {
                self.instances_selected = clamp(self.instances_selected, page.items.len());
                self.instances_total = page.total_count;
                self.instances = page.items;
            },
            Err(detail) => {
                self.error = Some(AppError::Request(Fetch::Instances, detail));
            },
        }
        Some(Request::ListImages { tenant_id: copy_of(&self.tenant_id), limit: PAGE_LIMIT })
    }

    /// Takes the answer to `Request::ListImages`. With a tenant it asks for
    /// the tenant's metrics in the current bucket width; without one the
    /// cycle ends at `now`.
    pub fn images_fetched(&mut self, outcome: Result<ImagePage, String>, now: u64) -> (next:
        Option<Request>)
        ensures
            final(self)@ == old(self)@.images_fetched(outcome, now),
            next == old(self)@.request_after_images(),
            old(self).wf() ==> final(self).wf(),
    {
        match outcome {
            Ok(page) => {
                self.images_selected = clamp(self.images_selected, page.items.len());
                self.images_total = page.total_count;
                self.images = page.items;
            },
            Err(detail) => {
                self.error = Some(AppError::Request(Fetch::Images, detail));
            },
        }
        match &self.tenant_id {
            Some(tenant_id) => Some(
                Request::GetTenantMetrics {
                    tenant_id: tenant_id.clone(),
                    granularity: self.metrics_granularity,
                },
            ),
            None => {
                self.last_refresh = Some(now);
                None
            },
        }
    }

    /// Takes the answer to `Request::GetTenantMetrics`, which ends the cycle
    /// at `now`.
    pub fn metrics_fetched(&mut self, outcome: Result<TenantMetrics, String>, now: u64) -> (next:
        Option<Request>)
        ensures
            final(self)@ == old(self)@.metrics_fetched(outcome, now),
            next is None,
            old(self).wf() ==> final(self).wf(),
    {
        match outcome {
            Ok(metrics) => {
                self.metrics_selected = clamp(self.metrics_selected, metrics.buckets.len());
                self.metrics = Some(metrics);
            },
            Err(detail) => {
                self.error = Some(AppError::Request(Fetch::Metrics, detail));
            },
        }
        self.last_refresh = Some(now);
        None
    }

    /// Takes the answer to `Request::GetInstance`, which ends the chain. On
    /// the base frame the instance opens, scrolled to its top; a failure is
    /// noted in the error slot and opens nothing.
    pub fn instance_fetched(&mut self, outcome: Result<InstanceInfo, String>) -> (next: Option<
        Request,
    >)
        ensures
            final(self)@ == old(self)@.instance_fetched(outcome),
            next is None,
            old(self).wf() ==> final(self).wf(),
    {
        match outcome {
            Ok(info) => {
                if self.view_mode == ViewMode::List {
                    self.instance_detail = Some(info);
                    self.view_mode = ViewMode::InstanceDetail;
                    self.detail_scroll = 0;
                }
            },
            Err(detail) => {
                self.error = Some(AppError::Request(Fetch::InstanceDetail, detail));
            },
        }
        None
    }

    /// Takes the answer to `Request::ListCheckpoints`, which ends the chain.
    /// On the instance frame the checkpoint list opens with the cursor on
    /// its first row and the scroll offset at 0; a failure is noted in the
    /// error slot and opens nothing.
    pub fn checkpoints_fetched(&mut self, outcome: Result<CheckpointPage, String>) -> (next:
        Option<Request>)
        ensures
            final(self)@ == old(self)@.checkpoints_fetched(outcome),
            next is None,
            old(self).wf() ==> final(self).wf(),
    {
        match outcome {
            Ok(page) => {
                if self.view_mode == ViewMode::InstanceDetail {
                    self.checkpoints = page.items;
                    self.checkpoints_total = page.total_count;
                    self.checkpoints_selected = 0;
                    self.view_mode = ViewMode::CheckpointsList;
                    self.detail_scroll = 0;
                }
            },
            Err(detail) => {
                self.error = Some(AppError::Request(Fetch::Checkpoints, detail));
            },
        }
        None
    }

    /// Takes the answer to `Request::GetCheckpoint`, which ends the chain.
    /// On the checkpoint list the checkpoint opens, scrolled to its top; a
    /// checkpoint that is gone, and a failure, are noted in the error slot
    /// and open nothing.
    pub fn checkpoint_fetched(&mut self, outcome: Result<Option<Checkpoint>, String>) -> (next:
        Option<Request>)
        ensures
            final(self)@ == old(self)@.checkpoint_fetched(outcome),
            next is None,
            old(self).wf() ==> final(self).wf(),
    {
        match outcome {
            Ok(Some(checkpoint)) => {
                if self.view_mode == ViewMode::CheckpointsList {
                    self.checkpoint_detail = Some(checkpoint);
                    self.view_mode = ViewMode::CheckpointDetail;
                    self.detail_scroll = 0;
                }
            },
            Ok(None) => {
                self.error = Some(AppError::CheckpointNotFound);
            },
            Err(detail) => {
                self.error = Some(AppError::Request(Fetch::Checkpoint, detail));
            },
        }
        None
    }
}

} // verus!
