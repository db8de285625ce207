//! What holds of the dashboard whatever happens to it.
//!
//! The laws speak of [`Model`], the value that every method of
//! [`crate::App`] is specified over.

use crate::error::{AppError, ConnectError, Fetch};
use crate::input::{action_for, Action, Key};
use crate::model::Model;
use crate::records::{
    Checkpoint, CheckpointPage, ImagePage, InstanceInfo, InstancePage, TenantMetrics,
};
use crate::request::{Operation, Request};
use crate::selection::{
    clamped_index, lemma_moving_down_comes_round, lemma_moving_up_comes_round,
    lemma_moves_by_cases, moved_down, moved_up, next_index, previous_index, valid_index,
};
use crate::status_filter::StatusFilter;
use crate::tab::{Tab, ViewMode};
use runtara_management_sdk::HealthStatus;
use vstd::prelude::*;

verus! {

/// Anything that can happen to the dashboard: a key press, the start of an
/// automatic refresh, or the answer to a request.
pub enum Event {
    Key(Key),
    RefreshDue,
    Connected(Operation, Result<(), ConnectError>),
    Health(Result<HealthStatus, String>),
    Instances(Result<InstancePage, String>),
    Images(Result<ImagePage, String>),
    Metrics(Result<TenantMetrics, String>),
    Instance(Result<InstanceInfo, String>),
    Checkpoints(Result<CheckpointPage, String>),
    Checkpoint(Result<Option<Checkpoint>, String>),
}

/// The answers of the server in one refresh cycle. Those after a failed
/// connection, and the metrics where no tenant is set, are never asked for.
pub struct RefreshAnswers {
    pub connect: Result<(), ConnectError>,
    pub health: Result<HealthStatus, String>,
    pub instances: Result<InstancePage, String>,
    pub images: Result<ImagePage, String>,
    pub metrics: Result<TenantMetrics, String>,
}

impl Model {
    /// The dashboard after `event` at the time `now`.
    pub open spec fn after(self, event: Event, now: u64) -> Model {
        match event {
            Event::Key(key) => self.key_pressed(key),
            Event::RefreshDue => self.start(Operation::Refresh),
            Event::Connected(operation, outcome) => self.connected(operation, outcome, now),
            Event::Health(outcome) => self.health_fetched(outcome),
            Event::Instances(outcome) => self.instances_fetched(outcome),
            Event::Images(outcome) => self.images_fetched(outcome, now),
            Event::Metrics(outcome) => self.metrics_fetched(outcome, now),
            Event::Instance(outcome) => self.instance_fetched(outcome),
            Event::Checkpoints(outcome) => self.checkpoints_fetched(outcome),
            Event::Checkpoint(outcome) => self.checkpoint_fetched(outcome),
        }
    }

    /// The dashboard after a whole refresh cycle that ends at `now`.
    pub open spec fn refreshed(self, answers: RefreshAnswers, now: u64) -> Model {
        let begun = self.start(Operation::Refresh).connected(
            Operation::Refresh,
            answers.connect,
            now,
        );
        if answers.connect is Err {
            begun
        } else {
            let listed = begun.health_fetched(answers.health).instances_fetched(
                answers.instances,
            ).images_fetched(answers.images, now);
            if self.tenant_id is Some {
                listed.metrics_fetched(answers.metrics, now)
            } else {
                listed
            }
        }
    }

    /// The length of the list behind the current tab.
    pub open spec fn current_len(self) -> int {
        match self.tab {
            Tab::Instances => self.instances.len() as int,
            Tab::Images => self.images.len() as int,
            Tab::Metrics => self.bucket_count(),
            Tab::Health => 0,
        }
    }

    /// The dashboard after `steps` moves down the current list.
    pub open spec fn next_items(self, steps: nat) -> Model
        decreases steps,
    {
        if steps == 0 {
            self
        } else {
            self.next_item().next_items((steps - 1) as nat)
        }
    }

    /// The dashboard after `steps` moves up the current list.
    pub open spec fn previous_items(self, steps: nat) -> Model
        decreases steps,
    {
        if steps == 0 {
            self
        } else {
            self.previous_item().previous_items((steps - 1) as nat)
        }
    }

    /// The dashboard after `steps` moves down the checkpoint list.
    pub open spec fn next_checkpoints(self, steps: nat) -> Model
        decreases steps,
    {
        if steps == 0 {
            self
        } else {
            self.next_checkpoint().next_checkpoints((steps - 1) as nat)
        }
    }
}

/// After a list was replaced by one of `len` rows, the cursor is where it
/// was or on the last row, whichever comes first; in an empty list it is 0.
/// Either way it fits the new list.
pub proof fn lemma_clamped_index(selected: int, len: int)
    requires
        0 <= selected,
        0 <= len,
    ensures
        len > 0 ==> clamped_index(selected, len) == vstd::math::min(selected, len - 1),
        len == 0 ==> clamped_index(selected, len) == 0,
        valid_index(clamped_index(selected, len), len),
        valid_index(selected, len) && len > 0 ==> clamped_index(selected, len) == selected,
{
}

/// Every replacement of a list on display clamps its cursor: that of the
/// instances, of the images and of the metrics buckets on a refresh, and
/// that of the checkpoints, which rests on 0 while they are closed, when
/// they open.
pub proof fn lemma_replacement_clamps_cursor(
    model: Model,
    instances: InstancePage,
    images: ImagePage,
    metrics: TenantMetrics,
    checkpoints: CheckpointPage,
    now: u64,
)
    requires
        model.wf(),
    ensures
        model.instances_fetched(Ok(instances)).instances_selected == clamped_index(
            model.instances_selected,
            instances.items@.len() as int,
        ),
        model.images_fetched(Ok(images), now).images_selected == clamped_index(
            model.images_selected,
            images.items@.len() as int,
        ),
        model.metrics_fetched(Ok(metrics), now).metrics_selected == clamped_index(
            model.metrics_selected,
            metrics.buckets@.len() as int,
        ),
        model.view_mode == ViewMode::InstanceDetail ==> model.checkpoints_fetched(
            Ok(checkpoints),
        ).checkpoints_selected == clamped_index(
            model.checkpoints_selected,
            checkpoints.items@.len() as int,
        ),
{
}

/// Moving down the current list `steps` times moves its cursor and nothing
/// else.
pub proof fn lemma_next_items(model: Model, steps: nat)
    requires
        model.wf(),
    ensures
        model.next_items(steps).wf(),
        model.next_items(steps) == (match model.tab {
            Tab::Instances => Model {
                instances_selected: moved_down(
                    model.instances_selected,
                    model.instances.len() as int,
                    steps,
                ),
                ..model
            },
            Tab::Images => Model {
                images_selected: moved_down(
                    model.images_selected,
                    model.images.len() as int,
                    steps,
                ),
                ..model
            },
            Tab::Metrics => Model {
                metrics_selected: moved_down(model.metrics_selected, model.bucket_count(), steps),
                ..model
            },
            Tab::Health => model,
        }),
    decreases steps,
{
    if steps > 0 {
        lemma_step_keeps_wf(model);
        lemma_next_items(model.next_item(), (steps - 1) as nat);
    }
}

/// Moving up the current list `steps` times moves its cursor and nothing
/// else.
pub proof fn lemma_previous_items(model: Model, steps: nat)
    requires
        model.wf(),
    ensures
        model.previous_items(steps).wf(),
        model.previous_items(steps) == (match model.tab {
            Tab::Instances => Model {
                instances_selected: moved_up(
                    model.instances_selected,
                    model.instances.len() as int,
                    steps,
                ),
                ..model
            },
            Tab::Images => Model {
                images_selected: moved_up(
                    model.images_selected,
                    model.images.len() as int,
                    steps,
                ),
                ..model
            },
            Tab::Metrics => Model {
                metrics_selected: moved_up(model.metrics_selected, model.bucket_count(), steps),
                ..model
            },
            Tab::Health => model,
        }),
    decreases steps,
{
    if steps > 0 {
        lemma_step_keeps_wf(model);
        lemma_previous_items(model.previous_item(), (steps - 1) as nat);
    }
}

/// One move of a cursor leaves the dashboard well formed.
pub proof fn lemma_step_keeps_wf(model: Model)
    requires
        model.wf(),
    ensures
        model.next_item().wf(),
        model.previous_item().wf(),
        model.next_checkpoint().wf(),
        model.previous_checkpoint().wf(),
{
    lemma_cursor_stays_valid(model.instances_selected, model.instances.len() as int);
    lemma_cursor_stays_valid(model.images_selected, model.images.len() as int);
    lemma_cursor_stays_valid(model.metrics_selected, model.bucket_count());
    lemma_cursor_stays_valid(model.checkpoints_selected, model.checkpoints.len() as int);
}

/// A cursor that fits its list fits it after a move.
pub proof fn lemma_cursor_stays_valid(selected: int, len: int)
    requires
        valid_index(selected, len),
    ensures
        valid_index(next_index(selected, len), len),
        valid_index(previous_index(selected, len), len),
{
    if len > 0 {
        lemma_moves_by_cases(selected, len);
    }
}

/// As many moves down as the current list has rows bring the dashboard back
/// to where it was, and so do as many moves up.
pub proof fn lemma_cursor_comes_round(model: Model)
    requires
        model.wf(),
    ensures
        model.next_items(model.current_len() as nat) == model,
        model.previous_items(model.current_len() as nat) == model,
{
    let len = model.current_len();
    lemma_next_items(model, len as nat);
    lemma_previous_items(model, len as nat);
    match model.tab {
        Tab::Instances => {
            lemma_moving_down_comes_round(model.instances_selected, len);
            lemma_moving_up_comes_round(model.instances_selected, len);
        },
        Tab::Images => {
            lemma_moving_down_comes_round(model.images_selected, len);
            lemma_moving_up_comes_round(model.images_selected, len);
        },
        Tab::Metrics => {
            lemma_moving_down_comes_round(model.metrics_selected, len);
            lemma_moving_up_comes_round(model.metrics_selected, len);
        },
        Tab::Health => {},
    }
}

/// As many moves down as the checkpoint list has rows bring its cursor back
/// to where it was.
pub proof fn lemma_checkpoint_cursor_comes_round(model: Model, steps: nat)
    requires
        model.wf(),
    ensures
        model.next_checkpoints(steps) == (Model {
            checkpoints_selected: moved_down(
                model.checkpoints_selected,
                model.checkpoints.len() as int,
                steps,
            ),
            ..model
        }),
        steps == model.checkpoints.len() ==> model.next_checkpoints(steps) == model,
    decreases steps,
{
    if steps > 0 {
        lemma_step_keeps_wf(model);
        lemma_checkpoint_cursor_comes_round(model.next_checkpoint(), (steps - 1) as nat);
    }
    lemma_moving_down_comes_round(model.checkpoints_selected, model.checkpoints.len() as int);
}

/// Whatever a key asks for leaves the dashboard well formed.
pub proof fn lemma_action_keeps_wf(model: Model, action: Action)
    requires
        model.wf(),
    ensures
        model.apply(action).wf(),
{
    match action {
        Action::NextItem | Action::PreviousItem | Action::NextCheckpoint
        | Action::PreviousCheckpoint => {
            lemma_step_keeps_wf(model);
        },
        _ => {},
    }
}

/// The start of an operation and the answer to its connection attempt leave
/// the dashboard well formed.
pub proof fn lemma_connected_keeps_wf(
    model: Model,
    operation: Operation,
    outcome: Result<(), ConnectError>,
    now: u64,
)
    requires
        model.wf(),
    ensures
        model.start(operation).wf(),
        model.connected(operation, outcome, now).wf(),
{
}

/// The answer to a fetch of the refresh cycle leaves the dashboard well
/// formed.
pub proof fn lemma_refresh_answer_keeps_wf(model: Model, event: Event, now: u64)
    requires
        model.wf(),
        event is Health || event is Instances || event is Images || event is Metrics,
    ensures
        model.after(event, now).wf(),
{
}

/// The answer to a fetch that opens a frame leaves the dashboard well
/// formed.
pub proof fn lemma_frame_answer_keeps_wf(model: Model, event: Event, now: u64)
    requires
        model.wf(),
        event is Instance || event is Checkpoints || event is Checkpoint,
    ensures
        model.after(event, now).wf(),
{
}

/// Whatever happens, the dashboard stays well formed.
pub proof fn lemma_wf_is_invariant(model: Model, event: Event, now: u64)
    requires
        model.wf(),
    ensures
        model.after(event, now).wf(),
{
    match event {
        Event::Key(key) => {
            lemma_action_keeps_wf(
                model.clear_error(),
                action_for(model.view_mode, model.tab, key),
            );
        },
        Event::RefreshDue => {
            lemma_connected_keeps_wf(model, Operation::Refresh, Ok(()), now);
        },
        Event::Connected(operation, outcome) => {
            lemma_connected_keeps_wf(model, operation, outcome, now);
        },
        Event::Health(_) | Event::Instances(_) | Event::Images(_) | Event::Metrics(_) => {
            lemma_refresh_answer_keeps_wf(model, event, now);
        },
        Event::Instance(_) | Event::Checkpoints(_) | Event::Checkpoint(_) => {
            lemma_frame_answer_keeps_wf(model, event, now);
        },
    }
}

/// The session's configuration is the same after whatever happens.
pub proof fn lemma_session_is_fixed(model: Model, event: Event, now: u64)
    ensures
        model.after(event, now).server_addr == model.server_addr,
        model.after(event, now).skip_cert_verification == model.skip_cert_verification,
        model.after(event, now).tenant_id == model.tenant_id,
        model.after(event, now).refresh_interval == model.refresh_interval,
{
}

/// A failure discards nothing that is on display: an answer that is a
/// failure changes the error slot and, where it ends a refresh cycle, the
/// time stamp and the connection flag, and nothing else.
pub proof fn lemma_failure_keeps_display(model: Model, event: Event, now: u64)
    requires
        match event {
            Event::Key(_) => false,
            Event::RefreshDue => false,
            Event::Connected(_, outcome) => outcome is Err,
            Event::Health(outcome) => outcome is Err,
            Event::Instances(outcome) => outcome is Err,
            Event::Images(outcome) => outcome is Err,
            Event::Metrics(outcome) => outcome is Err,
            Event::Instance(outcome) => outcome is Err,
            Event::Checkpoints(outcome) => outcome is Err,
            Event::Checkpoint(outcome) => outcome is Err || outcome == Ok::<
                Option<Checkpoint>,
                String,
            >(None),
        },
    ensures
        ({
            let after = model.after(event, now);
            &&& after.error is Some
            &&& after == Model {
                error: after.error,
                last_refresh: after.last_refresh,
                connected: after.connected,
                ..model
            }
            &&& after.last_refresh == model.last_refresh || after.last_refresh == Some(now)
            &&& after.connected != model.connected ==> event is Connected && event->Connected_0
                == Operation::Refresh
        }),
{
}

/// The navigation stack changes by one frame at a time, and only so:
/// going back takes the innermost frame off, except at the base, where
/// nothing changes; a frame is pushed by nothing but the successful answer
/// to the fetch of what it shows, arriving in the frame below it.
pub proof fn lemma_frames_are_legal(model: Model, event: Event, now: u64)
    ensures
        ({
            let before = model.view_mode;
            let after = model.after(event, now).view_mode;
            &&& after == before || after == before.parent() || after.parent() == before
            &&& after != before && after == before.parent() ==> event is Key && action_for(
                before,
                model.tab,
                event->Key_0,
            ) == Action::GoBack
            &&& after != before && after.parent() == before ==> match event {
                Event::Instance(outcome) => outcome is Ok && before == ViewMode::List,
                Event::Checkpoints(outcome) => outcome is Ok && before
                    == ViewMode::InstanceDetail,
                Event::Checkpoint(outcome) => outcome matches Ok(Some(_)) && before
                    == ViewMode::CheckpointsList,
                _ => false,
            }
        }),
        model.view_mode == ViewMode::List ==> model.go_back() == model,
        model.go_back().view_mode.stack() == (if model.view_mode == ViewMode::List {
            model.view_mode.stack()
        } else {
            model.view_mode.stack().drop_last()
        }),
{
    assert(model.go_back().view_mode.stack() =~= (if model.view_mode == ViewMode::List {
        model.view_mode.stack()
    } else {
        model.view_mode.stack().drop_last()
    }));
}

/// A frame that was pushed lies on top of the stack as it was.
pub proof fn lemma_push_extends_stack(model: Model, event: Event, now: u64)
    requires
        model.after(event, now).view_mode != model.view_mode,
        model.after(event, now).view_mode.parent() == model.view_mode,
    ensures
        model.after(event, now).view_mode.stack() == model.view_mode.stack().push(
            model.after(event, now).view_mode,
        ),
{
    assert(model.after(event, now).view_mode.stack() =~= model.view_mode.stack().push(
        model.after(event, now).view_mode,
    ));
}

/// A refresh cycle ends at `now` however it went.
pub proof fn lemma_refresh_always_stamps(model: Model, answers: RefreshAnswers, now: u64)
    ensures
        model.refreshed(answers, now).last_refresh == Some(now),
        model.refreshed(answers, now).connected == (answers.connect is Ok),
        model.refreshed(answers, now).view_mode == model.view_mode,
{
}

/// A refresh that cannot connect notes the failure and the time, and leaves
/// everything on display as it was.
pub proof fn lemma_failed_connect_keeps_display(
    model: Model,
    answers: RefreshAnswers,
    now: u64,
)
    requires
        answers.connect is Err,
    ensures
        model.refreshed(answers, now) == (Model {
            connected: false,
            error: Some(AppError::of_connect(answers.connect->Err_0)),
            last_refresh: Some(now),
            ..model
        }),
        model.start(Operation::Refresh).request_after_connect(Operation::Refresh, answers.connect)
            is None,
{
}

/// In a cycle that gets through, what was fetched is on display, and what
/// failed leaves the display as it was.
pub proof fn lemma_each_fetch_commits_alone(model: Model, answers: RefreshAnswers, now: u64)
    requires
        answers.connect is Ok,
    ensures
        ({
            let after = model.refreshed(answers, now);
            &&& after.health == (match answers.health {
                Ok(health) => Some(health),
                Err(_) => model.health,
            })
            &&& after.instances == (match answers.instances {
                Ok(page) => page.items@,
                Err(_) => model.instances,
            })
            &&& after.instances_total == (match answers.instances {
                Ok(page) => page.total_count,
                Err(_) => model.instances_total,
            })
            &&& after.instances_selected == (match answers.instances {
                Ok(page) => clamped_index(model.instances_selected, page.items@.len() as int),
                Err(_) => model.instances_selected,
            })
            &&& after.images == (match answers.images {
                Ok(page) => page.items@,
                Err(_) => model.images,
            })
            &&& after.images_total == (match answers.images {
                Ok(page) => page.total_count,
                Err(_) => model.images_total,
            })
            &&& after.images_selected == (match answers.images {
                Ok(page) => clamped_index(model.images_selected, page.items@.len() as int),
                Err(_) => model.images_selected,
            })
            &&& after.metrics == (match answers.metrics {
                Ok(metrics) if model.tenant_id is Some => Some(metrics),
                _ => model.metrics,
            })
        }),
{
}

/// The error slot after a cycle that gets through holds the failure of the
/// last fetch that failed, and nothing if none did.
pub proof fn lemma_last_error_wins(model: Model, answers: RefreshAnswers, now: u64)
    requires
        answers.connect is Ok,
    ensures
        model.refreshed(answers, now).error == (if model.tenant_id is Some
            && answers.metrics is Err {
            Some(AppError::Request(Fetch::Metrics, answers.metrics->Err_0))
        } else if answers.images is Err {
            Some(AppError::Request(Fetch::Images, answers.images->Err_0))
        } else if answers.instances is Err {
            Some(AppError::Request(Fetch::Instances, answers.instances->Err_0))
        } else if answers.health is Err {
            Some(AppError::Request(Fetch::Health, answers.health->Err_0))
        } else {
            None
        }),
{
}

/// Where the instance fetch fails and the image fetch succeeds, and no
/// later fetch fails, the new images are on display beside the instances as
/// they were, and the error slot names the instance fetch.
pub proof fn lemma_partial_failure_commits(model: Model, answers: RefreshAnswers, now: u64)
    requires
        answers.connect is Ok,
        answers.instances is Err,
        answers.images is Ok,
        model.tenant_id is Some ==> answers.metrics is Ok,
    ensures
        ({
            let after = model.refreshed(answers, now);
            let page = answers.images->Ok_0;
            &&& after.images == page.items@
            &&& after.images_total == page.total_count
            &&& after.instances == model.instances
            &&& after.instances_total == model.instances_total
            &&& after.instances_selected == model.instances_selected
            &&& after.error == Some(AppError::Request(Fetch::Instances, answers.instances->Err_0))
            &&& after.error->0.text() == "Failed to list instances: "@ + (
            answers.instances->Err_0)@
        }),
{
}

/// A refresh asks, in this order, for a connection, the server's health, the
/// instances, the images and, where a tenant is set, its metrics; then it
/// asks no more.
pub proof fn lemma_refresh_asks_in_order(model: Model, answers: RefreshAnswers, now: u64)
    requires
        answers.connect is Ok,
    ensures
        ({
            let begun = model.start(Operation::Refresh);
            let linked = begun.connected(Operation::Refresh, answers.connect, now);
            let checked = linked.health_fetched(answers.health);
            let listed = checked.instances_fetched(answers.instances);
            &&& model.first_request(Operation::Refresh) == Some(Request::Connect)
            &&& begun.request_after_connect(Operation::Refresh, answers.connect) == Some(
                Request::HealthCheck,
            )
            &&& linked.instances_request() == Request::ListInstances {
                tenant_id: model.tenant_id,
                status: model.status_filter.status(),
                limit: 100,
            }
            &&& checked.images_request() == Request::ListImages {
                tenant_id: model.tenant_id,
                limit: 100,
            }
            &&& listed.request_after_images() == (match model.tenant_id {
                Some(tenant_id) => Some(
                    Request::GetTenantMetrics {
                        tenant_id,
                        granularity: model.metrics_granularity,
                    },
                ),
                None => None,
            })
        }),
{
}

/// Six steps through the status filters bring the dashboard back to where
/// it was.
pub proof fn lemma_filter_comes_round(model: Model)
    ensures
        model.cycle_status_filter().cycle_status_filter().cycle_status_filter()
            .cycle_status_filter().cycle_status_filter().cycle_status_filter() == model,
        model.status_filter == StatusFilter::All ==> model.cycle_status_filter()
            .cycle_status_filter().cycle_status_filter().cycle_status_filter()
            .cycle_status_filter().cycle_status_filter().status_filter == StatusFilter::All,
{
}

/// Switching the bucket width puts the metrics cursor on the first bucket,
/// wherever it was, and switching twice gives the width back.
pub proof fn lemma_granularity_resets_cursor(model: Model)
    ensures
        model.toggle_metrics_granularity().metrics_selected == 0,
        model.toggle_metrics_granularity().toggle_metrics_granularity().metrics_granularity
            == model.metrics_granularity,
{
}

/// Four steps through the tabs come round, a step left undoes a step right,
/// and a position outside the tab bar selects the first tab.
pub proof fn lemma_tabs_come_round(model: Model, index: int)
    ensures
        model.next_tab().next_tab().next_tab().next_tab() == model,
        model.previous_tab().previous_tab().previous_tab().previous_tab() == model,
        model.next_tab().previous_tab() == model,
        model.previous_tab().next_tab() == model,
        model.set_tab(model.tab.position()) == model,
        !(0 <= index < 4) ==> model.set_tab(index).tab == Tab::Instances,
{
}

/// A key without a meaning in the current frame changes nothing but the
/// error slot, which every key press empties.
pub proof fn lemma_unmapped_key_is_noop(model: Model, key: Key)
    requires
        action_for(model.view_mode, model.tab, key) == Action::Nothing,
    ensures
        model.key_pressed(key) == model.clear_error(),
        model.effect(Action::Nothing) == crate::input::Effect::Idle,
{
}

} // verus!
