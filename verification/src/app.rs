//! The dashboard's state, and the changes that need no answer from the server.

use crate::error::AppError;
use crate::model::Model;
use crate::records::{
    Checkpoint, CheckpointSummary, ImageSummary, InstanceInfo, InstanceSummary, TenantMetrics,
};
use crate::selection::{step_down, step_up};
use crate::status_filter::StatusFilter;
use crate::tab::{Tab, ViewMode};
use runtara_management_sdk::{HealthStatus, MetricsGranularity};
use vstd::prelude::*;

verus! {

/// The server address that is used where the configured one is no socket
/// address.
pub open spec fn default_server_addr() -> Seq<char> {
    "127.0.0.1:8002"@
}

/// The state of the dashboard. Times are milliseconds on the caller's clock,
/// which must not run backwards.
#[derive(Debug)]
pub struct App {
    /// The server's socket address, as text.
    pub server_addr: String,
    /// Whether the client is to accept any certificate.
    pub skip_cert_verification: bool,
    /// The tenant whose data is shown; all tenants where there is none.
    pub tenant_id: Option<String>,
    /// The tab of the base frame.
    pub tab: Tab,
    /// The innermost frame.
    pub view_mode: ViewMode,
    /// The filter of the instance list.
    pub status_filter: StatusFilter,
    /// The server's last report on itself.
    pub health: Option<HealthStatus>,
    /// The instance list: its rows, the server's count, the cursor.
    pub instances: Vec<InstanceSummary>,
    pub instances_total: u32,
    pub instances_selected: usize,
    /// The image list: its rows, the server's count, the cursor.
    pub images: Vec<ImageSummary>,
    pub images_total: u32,
    pub images_selected: usize,
    /// The open instance.
    pub instance_detail: Option<InstanceInfo>,
    /// The checkpoints of the open instance: rows, the server's count, the cursor.
    pub checkpoints: Vec<CheckpointSummary>,
    pub checkpoints_total: u32,
    pub checkpoints_selected: usize,
    /// The open checkpoint.
    pub checkpoint_detail: Option<Checkpoint>,
    /// The metrics on display, the bucket width asked for, the cursor.
    pub metrics: Option<TenantMetrics>,
    pub metrics_granularity: MetricsGranularity,
    pub metrics_selected: usize,
    /// How many lines the detail frame is scrolled down.
    pub detail_scroll: u16,
    /// When the last refresh cycle ended.
    pub last_refresh: Option<u64>,
    /// The time between the end of one cycle and the start of the next.
    pub refresh_interval: u64,
    /// The most recent failure.
    pub error: Option<AppError>,
    /// Whether the last refresh reached the server.
    pub connected: bool,
}

impl View for App {
    type V = Model;

    open spec fn view(&self) -> Model {
        Model {
            server_addr: self.server_addr@,
            skip_cert_verification: self.skip_cert_verification,
            tenant_id: self.tenant_id,
            tab: self.tab,
            view_mode: self.view_mode,
            status_filter: self.status_filter,
            health: self.health,
            instances: self.instances@,
            instances_total: self.instances_total,
            instances_selected: self.instances_selected as int,
            images: self.images@,
            images_total: self.images_total,
            images_selected: self.images_selected as int,
            instance_detail: self.instance_detail,
            checkpoints: self.checkpoints@,
            checkpoints_total: self.checkpoints_total,
            checkpoints_selected: self.checkpoints_selected as int,
            checkpoint_detail: self.checkpoint_detail,
            metrics: self.metrics,
            metrics_granularity: self.metrics_granularity,
            metrics_selected: self.metrics_selected as int,
            detail_scroll: self.detail_scroll,
            last_refresh: self.last_refresh,
            refresh_interval: self.refresh_interval,
            error: self.error,
            connected: self.connected,
        }
    }
}

impl App {
    /// Every cursor points into its list, and each detail frame that is open,
    /// and no other, has its data.
    pub open spec fn wf(&self) -> bool {
        self@.wf()
    }

    /// A dashboard that has fetched nothing yet. `server` is the configured
    /// socket address in its canonical form, or `None` where the configured
    /// text is no socket address; the default address then takes its place.
    pub fn new(
        server: Option<String>,
        skip_cert_verification: bool,
        tenant_id: Option<String>,
        refresh_interval: u64,
    ) -> (app: App)
        ensures
            app@ == Model::initial(
                match server {
                    Some(addr) => addr@,
                    None => default_server_addr(),
                },
                skip_cert_verification,
                tenant_id,
                refresh_interval,
            ),
            app.wf(),
    {
        let server_addr = match server {
            Some(addr) => addr,
            None => "127.0.0.1:8002".to_owned(),
        };
        let app = App {
            server_addr,
            skip_cert_verification,
            tenant_id,
            tab: Tab::Instances,
            view_mode: ViewMode::List,
            status_filter: StatusFilter::All,
            health: None,
            instances: Vec::new(),
            instances_total: 0,
            instances_selected: 0,
            images: Vec::new(),
            images_total: 0,
            images_selected: 0,
            instance_detail: None,
            checkpoints: Vec::new(),
            checkpoints_total: 0,
            checkpoints_selected: 0,
            checkpoint_detail: None,
            metrics: None,
            metrics_granularity: MetricsGranularity::Hourly,
            metrics_selected: 0,
            detail_scroll: 0,
            last_refresh: None,
            refresh_interval,
            error: None,
            connected: false,
        };
        assert(app@.instances =~= Seq::empty());
        assert(app@.images =~= Seq::empty());
        assert(app@.checkpoints =~= Seq::empty());
        app
    }

    /// Whether the state is well formed. It is after `new` and after every
    /// method of this type; a caller that writes the fields itself can ask.
    pub fn is_wf(&self) -> (ok: bool)
        ensures
            ok == self.wf(),
    {
        let buckets = self.bucket_count();
        let at_base = self.view_mode == ViewMode::List;
        let in_checkpoint = self.view_mode == ViewMode::CheckpointDetail;
        let below_checkpoints = at_base || self.view_mode == ViewMode::InstanceDetail;
        cursor_fits(self.instances_selected, self.instances.len())
            && cursor_fits(self.images_selected, self.images.len())
            && cursor_fits(self.checkpoints_selected, self.checkpoints.len())
            && cursor_fits(self.metrics_selected, buckets)
            && self.instance_detail.is_some() != at_base
            && self.checkpoint_detail.is_some() == in_checkpoint
            && (!below_checkpoints || (self.checkpoints.len() == 0 && self.checkpoints_total == 0))
    }

    /// The number of metrics buckets on display.
    pub fn bucket_count(&self) -> (count: usize)
        ensures
            count == self@.bucket_count(),
    {
        match &self.metrics {
            Some(metrics) => metrics.buckets.len(),
            None => 0,
        }
    }

    /// Whether a refresh is due at `now`.
    pub fn should_refresh(&self, now: u64) -> (due: bool)
        ensures
            due == self@.refresh_due(now),
    {
        match self.last_refresh {
            Some(last) => now.saturating_sub(last) >= self.refresh_interval,
            None => true,
        }
    }

    /// The whole seconds since the last refresh ended; `None` before the
    /// first.
    pub fn seconds_since_refresh(&self, now: u64) -> (seconds: Option<u64>)
        ensures
            seconds.is_some() == self@.seconds_since_refresh(now).is_some(),
            seconds matches Some(s) ==> self@.seconds_since_refresh(now) == Some(s as int),
    {
        match self.last_refresh {
            Some(last) => Some(now.saturating_sub(last) / 1000),
            None => None,
        }
    }

    /// The whole seconds until the next refresh is due; `None` before the
    /// first.
    pub fn seconds_until_refresh(&self, now: u64) -> (seconds: Option<u64>)
        ensures
            seconds.is_some() == self@.seconds_until_refresh(now).is_some(),
            seconds matches Some(s) ==> self@.seconds_until_refresh(now) == Some(s as int),
    {
        match self.last_refresh {
            Some(last) => Some(
                (self.refresh_interval / 1000).saturating_sub(now.saturating_sub(last) / 1000),
            ),
            None => None,
        }
    }

    /// Switches to the tab on the right, from the last to the first.
    pub fn next_tab(&mut self)
        ensures
            final(self)@ == old(self)@.next_tab(),
            old(self).wf() ==> final(self).wf(),
    {
        self.tab = match self.tab {
            Tab::Instances => Tab::Images,
            Tab::Images => Tab::Metrics,
            Tab::Metrics => Tab::Health,
            Tab::Health => Tab::Instances,
        };
    }

    /// Switches to the tab on the left, from the first to the last.
    pub fn previous_tab(&mut self)
        ensures
            final(self)@ == old(self)@.previous_tab(),
            old(self).wf() ==> final(self).wf(),
    {
        self.tab = match self.tab {
            Tab::Instances => Tab::Health,
            Tab::Images => Tab::Instances,
            Tab::Metrics => Tab::Images,
            Tab::Health => Tab::Metrics,
        };
    }

    /// Switches to the tab at `index` of the tab bar, or to the first tab
    /// where the bar has no such position.
    pub fn set_tab(&mut self, index: usize)
        ensures
            final(self)@ == old(self)@.set_tab(index as int),
            old(self).wf() ==> final(self).wf(),
    {
        self.tab = Tab::from_index(index);
    }

    /// Moves the cursor of the current tab's list one row down, from the last
    /// row to the first.
    pub fn next_item(&mut self)
        requires
            old(self).wf(),
        ensures
            final(self)@ == old(self)@.next_item(),
            final(self).wf(),
    {
        match self.tab {
            Tab::Instances => {
                self.instances_selected = step_down(self.instances_selected, self.instances.len());
            },
            Tab::Images => {
                self.images_selected = step_down(self.images_selected, self.images.len());
            },
            Tab::Metrics => {
                let buckets = self.bucket_count();
                self.metrics_selected = step_down(self.metrics_selected, buckets);
            },
            Tab::Health => {},
        }
    }

    /// Moves the cursor of the current tab's list one row up, from the first
    /// row to the last.
    pub fn previous_item(&mut self)
        requires
            old(self).wf(),
        ensures
            final(self)@ == old(self)@.previous_item(),
            final(self).wf(),
    {
        match self.tab {
            Tab::Instances => {
                self.instances_selected = step_up(self.instances_selected, self.instances.len());
            },
            Tab::Images => {
                self.images_selected = step_up(self.images_selected, self.images.len());
            },
            Tab::Metrics => {
                let buckets = self.bucket_count();
                self.metrics_selected = step_up(self.metrics_selected, buckets);
            },
            Tab::Health => {},
        }
    }

    /// Moves the cursor of the checkpoint list one row down, from the last
    /// row to the first.
    pub fn next_checkpoint(&mut self)
        requires
            old(self).wf(),
        ensures
            final(self)@ == old(self)@.next_checkpoint(),
            final(self).wf(),
    {
        self.checkpoints_selected = step_down(self.checkpoints_selected, self.checkpoints.len());
    }

    /// Moves the cursor of the checkpoint list one row up, from the first row
    /// to the last.
    pub fn previous_checkpoint(&mut self)
        requires
            old(self).wf(),
        ensures
            final(self)@ == old(self)@.previous_checkpoint(),
            final(self).wf(),
    {
        self.checkpoints_selected = step_up(self.checkpoints_selected, self.checkpoints.len());
    }

    /// Goes on to the next status filter, from the last to `All`.
    pub fn cycle_status_filter(&mut self)
        ensures
            final(self)@ == old(self)@.cycle_status_filter(),
            old(self).wf() ==> final(self).wf(),
    {
        self.status_filter = self.status_filter.next();
    }

    /// Switches between hourly and daily buckets and puts the metrics cursor
    /// on the first bucket.
    pub fn toggle_metrics_granularity(&mut self)
        ensures
            final(self)@ == old(self)@.toggle_metrics_granularity(),
            final(self).metrics_selected == 0,
            old(self).wf() ==> final(self).wf(),
    {
        self.metrics_granularity = match self.metrics_granularity {
            MetricsGranularity::Hourly => MetricsGranularity::Daily,
            MetricsGranularity::Daily => MetricsGranularity::Hourly,
        };
        self.metrics_selected = 0;
    }

    /// Takes the innermost frame off the stack, with the data that it alone
    /// owned. At the base frame nothing changes.
    pub fn go_back(&mut self)
        ensures
            final(self)@ == old(self)@.go_back(),
            old(self).view_mode == ViewMode::List ==> final(self)@ == old(self)@,
            final(self).view_mode == old(self).view_mode.parent(),
            old(self).wf() ==> final(self).wf(),
    {
        match self.view_mode {
            ViewMode::List => {},
            ViewMode::InstanceDetail => {
                self.view_mode = ViewMode::List;
                self.instance_detail = None;
                self.detail_scroll = 0;
            },
            ViewMode::CheckpointsList => {
                self.view_mode = ViewMode::InstanceDetail;
                self.checkpoints = Vec::new();
                self.checkpoints_total = 0;
                self.checkpoints_selected = 0;
                assert(self.checkpoints@ =~= Seq::empty());
            },
            ViewMode::CheckpointDetail => {
                self.view_mode = ViewMode::CheckpointsList;
                self.checkpoint_detail = None;
                self.detail_scroll = 0;
            },
        }
    }

    /// Scrolls the detail frame one line up, not past its top.
    pub fn scroll_up(&mut self)
        ensures
            final(self)@ == old(self)@.scroll_up(),
            old(self).wf() ==> final(self).wf(),
    {
        self.detail_scroll = self.detail_scroll.saturating_sub(1);
    }

    /// Scrolls the detail frame one line down, as far as the counter goes.
    pub fn scroll_down(&mut self)
        ensures
            final(self)@ == old(self)@.scroll_down(),
            old(self).wf() ==> final(self).wf(),
    {
        self.detail_scroll = self.detail_scroll.saturating_add(1);
    }

    /// Puts `error` into the error slot, in place of what was there.
    pub fn set_error(&mut self, error: AppError)
        ensures
            final(self)@ == old(self)@.set_error(error),
            old(self).wf() ==> final(self).wf(),
    {
        self.error = Some(error);
    }

    /// Empties the error slot.
    pub fn clear_error(&mut self)
        ensures
            final(self)@ == old(self)@.clear_error(),
            old(self).wf() ==> final(self).wf(),
    {
        self.error = None;
    }
}

/// Whether `selected` may be the cursor of a list of `len` rows.
fn cursor_fits(selected: usize, len: usize) -> (fits: bool)
    ensures
        fits == crate::selection::valid_index(selected as int, len as int),
{
    selected < len || (len == 0 && selected == 0)
}

} // verus!
