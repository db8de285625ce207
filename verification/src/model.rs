//! The dashboard as a mathematical value, and each change of it as a function.

use crate::error::{AppError, ConnectError, Fetch};
use crate::records::{
    Checkpoint, CheckpointPage, CheckpointSummary, ImagePage, ImageSummary, InstanceInfo,
    InstancePage, InstanceSummary, TenantMetrics,
};
use crate::request::{Operation, Request, PAGE_LIMIT};
use crate::selection::{clamped_index, next_index, previous_index, valid_index};
use crate::status_filter::StatusFilter;
use crate::tab::{Tab, ViewMode};
use runtara_management_sdk::{HealthStatus, MetricsGranularity};
use vstd::prelude::*;

verus! {

/// The other bucket width.
pub open spec fn flipped(granularity: MetricsGranularity) -> MetricsGranularity {
    match granularity {
        MetricsGranularity::Hourly => MetricsGranularity::Daily,
        MetricsGranularity::Daily => MetricsGranularity::Hourly,
    }
}

/// The time from `then` to `now` on a clock that does not run backwards;
/// 0 where it did.
pub open spec fn elapsed(then: u64, now: u64) -> int {
    if now >= then {
        now - then
    } else {
        0
    }
}

/// Everything the dashboard holds. Times are milliseconds on the caller's
/// clock.
pub struct Model {
    pub server_addr: Seq<char>,
    pub skip_cert_verification: bool,
    pub tenant_id: Option<String>,
    pub tab: Tab,
    pub view_mode: ViewMode,
    pub status_filter: StatusFilter,
    pub health: Option<HealthStatus>,
    pub instances: Seq<InstanceSummary>,
    pub instances_total: u32,
    pub instances_selected: int,
    pub images: Seq<ImageSummary>,
    pub images_total: u32,
    pub images_selected: int,
    pub instance_detail: Option<InstanceInfo>,
    pub checkpoints: Seq<CheckpointSummary>,
    pub checkpoints_total: u32,
    pub checkpoints_selected: int,
    pub checkpoint_detail: Option<Checkpoint>,
    pub metrics: Option<TenantMetrics>,
    pub metrics_granularity: MetricsGranularity,
    pub metrics_selected: int,
    pub detail_scroll: u16,
    pub last_refresh: Option<u64>,
    pub refresh_interval: u64,
    pub error: Option<AppError>,
    pub connected: bool,
}

impl Model {
    /// The number of metrics buckets on display.
    pub open spec fn bucket_count(self) -> int {
        match self.metrics {
            Some(metrics) => metrics.buckets@.len() as int,
            None => 0,
        }
    }

    /// Every cursor points into its list, and each detail frame that is open,
    /// and no other, has its data.
    pub open spec fn wf(self) -> bool {
        &&& valid_index(self.instances_selected, self.instances.len() as int)
        &&& valid_index(self.images_selected, self.images.len() as int)
        &&& valid_index(self.checkpoints_selected, self.checkpoints.len() as int)
        &&& valid_index(self.metrics_selected, self.bucket_count())
        &&& (self.instance_detail is Some <==> self.view_mode != ViewMode::List)
        &&& (self.checkpoint_detail is Some <==> self.view_mode == ViewMode::CheckpointDetail)
        &&& (self.view_mode == ViewMode::List || self.view_mode == ViewMode::InstanceDetail
            ==> self.checkpoints.len() == 0 && self.checkpoints_total == 0)
    }

    /// The dashboard at startup: nothing fetched, nothing selected, the base
    /// frame on the instances tab.
    pub open spec fn initial(
        server_addr: Seq<char>,
        skip_cert_verification: bool,
        tenant_id: Option<String>,
        refresh_interval: u64,
    ) -> Model {
        Model {
            server_addr,
            skip_cert_verification,
            tenant_id,
            tab: Tab::Instances,
            view_mode: ViewMode::List,
            status_filter: StatusFilter::All,
            health: None,
            instances: Seq::empty(),
            instances_total: 0,
            instances_selected: 0,
            images: Seq::empty(),
            images_total: 0,
            images_selected: 0,
            instance_detail: None,
            checkpoints: Seq::empty(),
            checkpoints_total: 0,
            checkpoints_selected: 0,
            checkpoint_detail: None,
            metrics: None,
            metrics_granularity: MetricsGranularity::Hourly,
            metrics_selected: 0,
            detail_scroll: 0,
            last_refresh: None,
            refresh_interval,
            error: None,
            connected: false,
        }
    }

    // Tabs, cursors and switches.

    /// The tab on the right in front.
    pub open spec fn next_tab(self) -> Model {
        Model { tab: self.tab.right(), ..self }
    }

    /// The tab on the left in front.
    pub open spec fn previous_tab(self) -> Model {
        Model { tab: self.tab.left(), ..self }
    }

    /// The tab at `index` of the tab bar in front.
    pub open spec fn set_tab(self, index: int) -> Model {
        Model { tab: Tab::at(index), ..self }
    }

    /// The cursor of the list behind the current tab, one row down.
    pub open spec fn next_item(self) -> Model {
        match self.tab {
            Tab::Instances => Model {
                instances_selected: next_index(
                    self.instances_selected,
                    self.instances.len() as int,
                ),
                ..self
            },
            Tab::Images => Model {
                images_selected: next_index(self.images_selected, self.images.len() as int),
                ..self
            },
            Tab::Metrics => Model {
                metrics_selected: next_index(self.metrics_selected, self.bucket_count()),
                ..self
            },
            Tab::Health => self,
        }
    }

    /// The cursor of the list behind the current tab, one row up.
    pub open spec fn previous_item(self) -> Model {
        match self.tab {
            Tab::Instances => Model {
                instances_selected: previous_index(
                    self.instances_selected,
                    self.instances.len() as int,
                ),
                ..self
            },
            Tab::Images => Model {
                images_selected: previous_index(self.images_selected, self.images.len() as int),
                ..self
            },
            Tab::Metrics => Model {
                metrics_selected: previous_index(self.metrics_selected, self.bucket_count()),
                ..self
            },
            Tab::Health => self,
        }
    }

    /// The cursor of the checkpoint list, one row down.
    pub open spec fn next_checkpoint(self) -> Model {
        Model {
            checkpoints_selected: next_index(
                self.checkpoints_selected,
                self.checkpoints.len() as int,
            ),
            ..self
        }
    }

    /// The cursor of the checkpoint list, one row up.
    pub open spec fn previous_checkpoint(self) -> Model {
        Model {
            checkpoints_selected: previous_index(
                self.checkpoints_selected,
                self.checkpoints.len() as int,
            ),
            ..self
        }
    }

    /// The next status filter in force.
    pub open spec fn cycle_status_filter(self) -> Model {
        Model { status_filter: self.status_filter.successor(), ..self }
    }

    /// The other bucket width; the buckets on display no longer line up with
    /// it, so the cursor goes back to the first.
    pub open spec fn toggle_metrics_granularity(self) -> Model {
        Model {
            metrics_granularity: flipped(self.metrics_granularity),
            metrics_selected: 0,
            ..self
        }
    }

    /// The detail frame one line up, not past its top.
    pub open spec fn scroll_up(self) -> Model {
        Model {
            detail_scroll: if self.detail_scroll == 0 {
                0u16
            } else {
                (self.detail_scroll - 1) as u16
            },
            ..self
        }
    }

    /// The detail frame one line down, as far as the counter goes.
    pub open spec fn scroll_down(self) -> Model {
        Model {
            detail_scroll: if self.detail_scroll == u16::MAX {
                u16::MAX
            } else {
                (self.detail_scroll + 1) as u16
            },
            ..self
        }
    }

    /// `error` in the error slot, in place of what was there.
    pub open spec fn set_error(self, error: AppError) -> Model {
        Model { error: Some(error), ..self }
    }

    /// The error slot empty.
    pub open spec fn clear_error(self) -> Model {
        Model { error: None, ..self }
    }

    // The navigation stack.

    /// The innermost frame taken off with the data it alone owned. The base
    /// frame stays.
    pub open spec fn go_back(self) -> Model {
        match self.view_mode {
            ViewMode::List => self,
            ViewMode::InstanceDetail => Model {
                view_mode: ViewMode::List,
                instance_detail: None,
                detail_scroll: 0,
                ..self
            },
            ViewMode::CheckpointsList => Model {
                view_mode: ViewMode::InstanceDetail,
                checkpoints: Seq::empty(),
                checkpoints_total: 0,
                checkpoints_selected: 0,
                ..self
            },
            ViewMode::CheckpointDetail => Model {
                view_mode: ViewMode::CheckpointsList,
                checkpoint_detail: None,
                detail_scroll: 0,
                ..self
            },
        }
    }

    /// Whether `operation` may begin: a refresh always; the opening of a
    /// frame only from the frame below it, and of a row only where there is
    /// one.
    pub open spec fn may_start(self, operation: Operation) -> bool {
        match operation {
            Operation::Refresh => true,
            Operation::OpenInstance => self.view_mode == ViewMode::List && self.instances.len()
                > 0,
            Operation::OpenCheckpoints => self.view_mode == ViewMode::InstanceDetail
                && self.instance_detail is Some,
            Operation::OpenCheckpoint => self.view_mode == ViewMode::CheckpointsList
                && self.checkpoints.len() > 0,
        }
    }

    /// The dashboard as `operation` begins. A refresh empties the error slot.
    pub open spec fn start(self, operation: Operation) -> Model {
        match operation {
            Operation::Refresh => self.clear_error(),
            _ => self,
        }
    }

    /// What `operation` asks first, if it may begin.
    pub open spec fn first_request(self, operation: Operation) -> Option<Request> {
        if self.may_start(operation) {
            Some(Request::Connect)
        } else {
            None
        }
    }

    // The automatic refresh.

    /// Whether a refresh is due at `now`: none ended yet, or the last one
    /// ended at least one interval ago.
    pub open spec fn refresh_due(self, now: u64) -> bool {
        match self.last_refresh {
            Some(last) => elapsed(last, now) >= self.refresh_interval,
            None => true,
        }
    }

    /// The whole seconds from the end of the last refresh to `now`.
    pub open spec fn seconds_since_refresh(self, now: u64) -> Option<int> {
        match self.last_refresh {
            Some(last) => Some(elapsed(last, now) / 1000),
            None => None,
        }
    }

    /// The whole seconds of the interval that are still to go at `now`; none
    /// once the interval is over.
    pub open spec fn seconds_until_refresh(self, now: u64) -> Option<int> {
        match self.last_refresh {
            Some(last) => {
                let interval = self.refresh_interval / 1000;
                let gone = elapsed(last, now) / 1000;
                if gone >= interval {
                    Some(0int)
                } else {
                    Some(interval - gone)
                }
            },
            None => None,
        }
    }

    /// The refresh cycle over, at `now`.
    pub open spec fn stamped(self, now: u64) -> Model {
        Model { last_refresh: Some(now), ..self }
    }

    // The answers to requests.

    /// The request for the instance list.
    pub open spec fn instances_request(self) -> Request {
        Request::ListInstances {
            tenant_id: self.tenant_id,
            status: self.status_filter.status(),
            limit: PAGE_LIMIT,
        }
    }

    /// The request for the image list.
    pub open spec fn images_request(self) -> Request {
        Request::ListImages { tenant_id: self.tenant_id, limit: PAGE_LIMIT }
    }

    /// The dashboard after the answer to `Request::Connect`. A refresh that
    /// could not connect is over, and says so in the error slot and the
    /// connection flag; the opening of a frame that could not connect leaves
    /// its trace in the error slot only.
    pub open spec fn connected(
        self,
        operation: Operation,
        outcome: Result<(), ConnectError>,
        now: u64,
    ) -> Model {
        match (operation, outcome) {
            (Operation::Refresh, Ok(_)) => Model { connected: true, ..self },
            (Operation::Refresh, Err(error)) => Model {
                connected: false,
                error: Some(AppError::of_connect(error)),
                last_refresh: Some(now),
                ..self
            },
            (_, Ok(_)) => self,
            (_, Err(error)) => Model { error: Some(AppError::of_connect(error)), ..self },
        }
    }

    /// What is asked after the answer to `Request::Connect`.
    pub open spec fn request_after_connect(
        self,
        operation: Operation,
        outcome: Result<(), ConnectError>,
    ) -> Option<Request> {
        if outcome is Err || !self.may_start(operation) {
            None
        } else {
            match operation {
                Operation::Refresh => Some(Request::HealthCheck),
                Operation::OpenInstance => Some(
                    Request::GetInstance {
                        instance_id: self.instances[self.instances_selected].instance_id,
                    },
                ),
                Operation::OpenCheckpoints => Some(
                    Request::ListCheckpoints {
                        instance_id: self.instance_detail->0.instance_id,
                        limit: PAGE_LIMIT,
                    },
                ),
                Operation::OpenCheckpoint => Some(
                    Request::GetCheckpoint {
                        instance_id: self.checkpoints[self.checkpoints_selected].instance_id,
                        checkpoint_id: self.checkpoints[self.checkpoints_selected].checkpoint_id,
                    },
                ),
            }
        }
    }

    /// The dashboard after the answer to `Request::HealthCheck`.
    pub open spec fn health_fetched(self, outcome: Result<HealthStatus, String>) -> Model {
        match outcome {
            Ok(health) => Model { health: Some(health), ..self },
            Err(detail) => self.set_error(AppError::Request(Fetch::Health, detail)),
        }
    }

    /// The dashboard after the answer to `Request::ListInstances`: the page
    /// in place of the rows, the cursor clamped to it, or the failure noted.
    pub open spec fn instances_fetched(self, outcome: Result<InstancePage, String>) -> Model {
        match outcome {
            Ok(page) => Model {
                instances: page.items@,
                instances_total: page.total_count,
                instances_selected: clamped_index(
                    self.instances_selected,
                    page.items@.len() as int,
                ),
                ..self
            },
            Err(detail) => self.set_error(AppError::Request(Fetch::Instances, detail)),
        }
    }

    /// The images put on display, or the failure noted.
    pub open spec fn images_shown(self, outcome: Result<ImagePage, String>) -> Model {
        match outcome {
            Ok(page) => Model {
                images: page.items@,
                images_total: page.total_count,
                images_selected: clamped_index(self.images_selected, page.items@.len() as int),
                ..self
            },
            Err(detail) => self.set_error(AppError::Request(Fetch::Images, detail)),
        }
    }

    /// The dashboard after the answer to `Request::ListImages`. Without a
    /// tenant there are no metrics to ask for, and the cycle is over.
    pub open spec fn images_fetched(self, outcome: Result<ImagePage, String>, now: u64) -> Model {
        if self.tenant_id is Some {
            self.images_shown(outcome)
        } else {
            self.images_shown(outcome).stamped(now)
        }
    }

    /// What is asked after the answer to `Request::ListImages`.
    pub open spec fn request_after_images(self) -> Option<Request> {
        match self.tenant_id {
            Some(tenant_id) => Some(
                Request::GetTenantMetrics { tenant_id, granularity: self.metrics_granularity },
            ),
            None => None,
        }
    }

    /// The dashboard after the answer to `Request::GetTenantMetrics`, which
    /// ends the cycle.
    pub open spec fn metrics_fetched(
        self,
        outcome: Result<TenantMetrics, String>,
        now: u64,
    ) -> Model {
        match outcome {
            Ok(metrics) => Model {
                metrics: Some(metrics),
                metrics_selected: clamped_index(
                    self.metrics_selected,
                    metrics.buckets@.len() as int,
                ),
                last_refresh: Some(now),
                ..self
            },
            Err(detail) => self.set_error(AppError::Request(Fetch::Metrics, detail)).stamped(now),
        }
    }

    /// The dashboard after the answer to `Request::GetInstance`: the instance
    /// frame is pushed onto the base frame, and onto no other.
    pub open spec fn instance_fetched(self, outcome: Result<InstanceInfo, String>) -> Model {
        match outcome {
            Ok(info) => if self.view_mode == ViewMode::List {
                Model {
                    instance_detail: Some(info),
                    view_mode: ViewMode::InstanceDetail,
                    detail_scroll: 0,
                    ..self
                }
            } else {
                self
            },
            Err(detail) => self.set_error(AppError::Request(Fetch::InstanceDetail, detail)),
        }
    }

    /// The dashboard after the answer to `Request::ListCheckpoints`: the
    /// checkpoint list is pushed onto the instance frame, and onto no other.
    pub open spec fn checkpoints_fetched(self, outcome: Result<CheckpointPage, String>) -> Model {
        match outcome {
            Ok(page) => if self.view_mode == ViewMode::InstanceDetail {
                Model {
                    checkpoints: page.items@,
                    checkpoints_total: page.total_count,
                    checkpoints_selected: 0,
                    view_mode: ViewMode::CheckpointsList,
                    detail_scroll: 0,
                    ..self
                }
            } else {
                self
            },
            Err(detail) => self.set_error(AppError::Request(Fetch::Checkpoints, detail)),
        }
    }

    /// The dashboard after the answer to `Request::GetCheckpoint`: the
    /// checkpoint frame is pushed onto the checkpoint list, and onto no
    /// other; a checkpoint that is gone is an error and pushes nothing.
    pub open spec fn checkpoint_fetched(
        self,
        outcome: Result<Option<Checkpoint>, String>,
    ) -> Model {
        match outcome {
            Ok(Some(checkpoint)) => if self.view_mode == ViewMode::CheckpointsList {
                Model {
                    checkpoint_detail: Some(checkpoint),
                    view_mode: ViewMode::CheckpointDetail,
                    detail_scroll: 0,
                    ..self
                }
            } else {
                self
            },
            Ok(None) => self.set_error(AppError::CheckpointNotFound),
            Err(detail) => self.set_error(AppError::Request(Fetch::Checkpoint, detail)),
        }
    }
}

} // verus!
