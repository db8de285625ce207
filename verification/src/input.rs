//! From key presses to changes of the dashboard.

use crate::app::App;
use crate::model::Model;
use crate::request::{Operation, Request};
use crate::tab::{Tab, ViewMode};
use vstd::prelude::*;

verus! {

/// A key press, as far as the dashboard tells keys apart.
#[derive(Debug, Clone, Copy, PartialEq, Eq, Structural)]
pub enum Key {
    Char(char),
    Esc,
    Tab,
    BackTab,
    Enter,
    Up,
    Down,
    /// Any other key.
    Other,
}

/// What a key press asks for.
#[derive(Debug, Clone, Copy, PartialEq, Eq, Structural)]
pub enum Action {
    /// The key means nothing in the current frame.
    Nothing,
    Quit,
    Refresh,
    NextTab,
    PreviousTab,
    SelectTab(usize),
    NextItem,
    PreviousItem,
    CycleStatusFilter,
    /// Switch the bucket width and fetch the metrics in it.
    ToggleGranularity,
    OpenInstance,
    OpenCheckpoints,
    OpenCheckpoint,
    GoBack,
    ScrollUp,
    ScrollDown,
    NextCheckpoint,
    PreviousCheckpoint,
}

/// What the caller is to do after a key press.
#[derive(Debug, PartialEq, Eq)]
pub enum Effect {
    /// Nothing but to draw.
    Idle,
    /// End the event loop.
    Quit,
    /// Perform the request, which begins the operation.
    Fetch(Operation, Request),
}

/// What `key` asks for in the base frame with `tab` in front. Only this
/// frame has the tabs, the filter, the bucket width, quitting and a manual
/// refresh; going back from it changes nothing.
pub open spec fn list_action(tab: Tab, key: Key) -> Action {
    match key {
        Key::Char(c) => if c == 'q' {
            Action::Quit
        } else if c == 'r' {
            Action::Refresh
        } else if c == 'j' {
            Action::NextItem
        } else if c == 'k' {
            Action::PreviousItem
        } else if c == '1' {
            Action::SelectTab(0)
        } else if c == '2' {
            Action::SelectTab(1)
        } else if c == '3' {
            Action::SelectTab(2)
        } else if c == '4' {
            Action::SelectTab(3)
        } else if c == 'f' {
            Action::CycleStatusFilter
        } else if c == 'g' && tab == Tab::Metrics {
            Action::ToggleGranularity
        } else {
            Action::Nothing
        },
        Key::Esc => Action::GoBack,
        Key::Tab => Action::NextTab,
        Key::BackTab => Action::PreviousTab,
        Key::Down => Action::NextItem,
        Key::Up => Action::PreviousItem,
        Key::Enter => if tab == Tab::Instances {
            Action::OpenInstance
        } else {
            Action::Nothing
        },
        Key::Other => Action::Nothing,
    }
}

/// What `key` asks for in a frame that scrolls: the instance frame, which
/// also leads on to the checkpoints, and the checkpoint frame.
pub open spec fn detail_action(leads_on: bool, key: Key) -> Action {
    match key {
        Key::Esc => Action::GoBack,
        Key::Down => Action::ScrollDown,
        Key::Up => Action::ScrollUp,
        Key::Char(c) => if c == 'j' {
            Action::ScrollDown
        } else if c == 'k' {
            Action::ScrollUp
        } else if c == 'c' && leads_on {
            Action::OpenCheckpoints
        } else {
            Action::Nothing
        },
        _ => Action::Nothing,
    }
}

/// What `key` asks for in the checkpoint list.
pub open spec fn checkpoints_action(key: Key) -> Action {
    match key {
        Key::Esc => Action::GoBack,
        Key::Enter => Action::OpenCheckpoint,
        Key::Down => Action::NextCheckpoint,
        Key::Up => Action::PreviousCheckpoint,
        Key::Char(c) => if c == 'j' {
            Action::NextCheckpoint
        } else if c == 'k' {
            Action::PreviousCheckpoint
        } else {
            Action::Nothing
        },
        _ => Action::Nothing,
    }
}

/// What `key` asks for in the frame `mode`, with `tab` in front at the base.
pub open spec fn action_for(mode: ViewMode, tab: Tab, key: Key) -> Action {
    match mode {
        ViewMode::List => list_action(tab, key),
        ViewMode::InstanceDetail => detail_action(true, key),
        ViewMode::CheckpointsList => checkpoints_action(key),
        ViewMode::CheckpointDetail => detail_action(false, key),
    }
}

impl Model {
    /// The operation that `action` begins, if it begins one.
    pub open spec fn operation_of(action: Action) -> Option<Operation> {
        match action {
            Action::Refresh => Some(Operation::Refresh),
            Action::ToggleGranularity => Some(Operation::Refresh),
            Action::OpenInstance => Some(Operation::OpenInstance),
            Action::OpenCheckpoints => Some(Operation::OpenCheckpoints),
            Action::OpenCheckpoint => Some(Operation::OpenCheckpoint),
            _ => None,
        }
    }

    /// The dashboard after `action`.
    pub open spec fn apply(self, action: Action) -> Model {
        match action {
            Action::Nothing => self,
            Action::Quit => self,
            Action::Refresh => self.start(Operation::Refresh),
            Action::NextTab => self.next_tab(),
            Action::PreviousTab => self.previous_tab(),
            Action::SelectTab(index) => self.set_tab(index as int),
            Action::NextItem => self.next_item(),
            Action::PreviousItem => self.previous_item(),
            Action::CycleStatusFilter => self.cycle_status_filter(),
            Action::ToggleGranularity => self.toggle_metrics_granularity().start(
                Operation::Refresh,
            ),
            Action::OpenInstance => self,
            Action::OpenCheckpoints => self,
            Action::OpenCheckpoint => self,
            Action::GoBack => self.go_back(),
            Action::ScrollUp => self.scroll_up(),
            Action::ScrollDown => self.scroll_down(),
            Action::NextCheckpoint => self.next_checkpoint(),
            Action::PreviousCheckpoint => self.previous_checkpoint(),
        }
    }

    /// What the caller is to do after `action`.
    pub open spec fn effect(self, action: Action) -> Effect {
        match action {
            Action::Quit => Effect::Quit,
            _ => match Model::operation_of(action) {
                Some(operation) => match self.first_request(operation) {
                    Some(request) => Effect::Fetch(operation, request),
                    None => Effect::Idle,
                },
                None => Effect::Idle,
            },
        }
    }

    /// The dashboard after a key press: the error on display is dismissed,
    /// and what the key asks for in the current frame is done.
    pub open spec fn key_pressed(self, key: Key) -> Model {
        self.clear_error().apply(action_for(self.view_mode, self.tab, key))
    }
}

/// What `key` asks for in the frame `mode`, with `tab` in front at the base.
/// A key without a meaning there asks for nothing.
pub fn dispatch(mode: ViewMode, tab: Tab, key: Key) -> (action: Action)
    ensures
        action == action_for(mode, tab, key),
{
    match mode {
        ViewMode::List => match key {
            Key::Char(c) => {
                if c == 'q' {
                    Action::Quit
                } else if c == 'r' {
                    Action::Refresh
                } else if c == 'j' {
                    Action::NextItem
                } else if c == 'k' {
                    Action::PreviousItem
                } else if c == '1' {
                    Action::SelectTab(0)
                } else if c == '2' {
                    Action::SelectTab(1)
                } else if c == '3' {
                    Action::SelectTab(2)
                } else if c == '4' {
                    Action::SelectTab(3)
                } else if c == 'f' {
                    Action::CycleStatusFilter
                } else if c == 'g' && tab == Tab::Metrics {
                    Action::ToggleGranularity
                } else {
                    Action::Nothing
                }
            },
            Key::Esc => Action::GoBack,
            Key::Tab => Action::NextTab,
            Key::BackTab => Action::PreviousTab,
            Key::Down => Action::NextItem,
            Key::Up => Action::PreviousItem,
            Key::Enter => {
                if tab == Tab::Instances {
                    Action::OpenInstance
                } else {
                    Action::Nothing
                }
            },
            Key::Other => Action::Nothing,
        },
        ViewMode::InstanceDetail => scrolling(true, key),
        ViewMode::CheckpointsList => match key {
            Key::Esc => Action::GoBack,
            Key::Enter => Action::OpenCheckpoint,
            Key::Down => Action::NextCheckpoint,
            Key::Up => Action::PreviousCheckpoint,
            Key::Char(c) => {
                if c == 'j' {
                    Action::NextCheckpoint
                } else if c == 'k' {
                    Action::PreviousCheckpoint
                } else {
                    Action::Nothing
                }
            },
            _ => Action::Nothing,
        },
        ViewMode::CheckpointDetail => scrolling(false, key),
    }
}

fn scrolling(leads_on: bool, key: Key) -> (action: Action)
    ensures
        action == detail_action(leads_on, key),
{
    match key {
        Key::Esc => Action::GoBack,
        Key::Down => Action::ScrollDown,
        Key::Up => Action::ScrollUp,
        Key::Char(c) => {
            if c == 'j' {
                Action::ScrollDown
            } else if c == 'k' {
                Action::ScrollUp
            } else if c == 'c' && leads_on {
                Action::OpenCheckpoints
            } else {
                Action::Nothing
            }
        },
        _ => Action::Nothing,
    }
}

impl App {
    /// Does what `action` asks for and says what the caller is to do then.
    pub fn apply(&mut self, action: Action) -> (effect: Effect)
        requires
            old(self).wf(),
        ensures
            final(self)@ == old(self)@.apply(action),
            effect == old(self)@.effect(action),
            final(self).wf(),
    {
        match action {
            Action::Nothing => Effect::Idle,
            Action::Quit => Effect::Quit,
            Action::Refresh => Effect::Fetch(Operation::Refresh, self.refresh()),
            Action::NextTab => {
                self.next_tab();
                Effect::Idle
            },
            Action::PreviousTab => {
                self.previous_tab();
                Effect::Idle
            },
            Action::SelectTab(index) => {
                self.set_tab(index);
                Effect::Idle
            },
            Action::NextItem => {
                self.next_item();
                Effect::Idle
            },
            Action::PreviousItem => {
                self.previous_item();
                Effect::Idle
            },
            Action::CycleStatusFilter => {
                self.cycle_status_filter();
                Effect::Idle
            },
            Action::ToggleGranularity => {
                self.toggle_metrics_granularity();
                Effect::Fetch(Operation::Refresh, self.refresh())
            },
            Action::OpenInstance => chain(Operation::OpenInstance, self.open_instance_detail()),
            Action::OpenCheckpoints => chain(
                Operation::OpenCheckpoints,
                self.open_checkpoints_list(),
            ),
            Action::OpenCheckpoint => chain(
                Operation::OpenCheckpoint,
                self.open_checkpoint_detail(),
            ),
            Action::GoBack => {
                self.go_back();
                Effect::Idle
            },
            Action::ScrollUp => {
                self.scroll_up();
                Effect::Idle
            },
            Action::ScrollDown => {
                self.scroll_down();
                Effect::Idle
            },
            Action::NextCheckpoint => {
                self.next_checkpoint();
                Effect::Idle
            },
            Action::PreviousCheckpoint => {
                self.previous_checkpoint();
                Effect::Idle
            },
        }
    }

    /// Takes a key press: dismisses the error on display, does what the key
    /// asks for in the current frame, and says what the caller is to do then.
    pub fn handle_key(&mut self, key: Key) -> (effect: Effect)
        requires
            old(self).wf(),
        ensures
            final(self)@ == old(self)@.key_pressed(key),
            effect == old(self)@.effect(action_for(old(self).view_mode, old(self).tab, key)),
            final(self).wf(),
    {
        let action = dispatch(self.view_mode, self.tab, key);
        self.clear_error();
        self.apply(action)
    }
}

fn chain(operation: Operation, first: Option<Request>) -> (effect: Effect)
    ensures
        effect == (match first {
            Some(request) => Effect::Fetch(operation, request),
            None => Effect::Idle,
        }),
{
    match first {
        Some(request) => Effect::Fetch(operation, request),
        None => Effect::Idle,
    }
}

} // verus!
