//! The top-level tabs and the frames of the drill-down.

use vstd::prelude::*;

verus! {

/// The data category that the base frame shows.
#[derive(Debug, Clone, Copy, PartialEq, Eq, Structural)]
pub enum Tab {
    Instances,
    Images,
    Metrics,
    Health,
}

impl Tab {
    /// The tab's position in the tab bar.
    pub open spec fn position(self) -> int {
        match self {
            Tab::Instances => 0,
            Tab::Images => 1,
            Tab::Metrics => 2,
            Tab::Health => 3,
        }
    }

    /// The tab at a position of the tab bar; a position outside the bar
    /// gives the first tab.
    pub open spec fn at(position: int) -> Tab {
        if position == 1 {
            Tab::Images
        } else if position == 2 {
            Tab::Metrics
        } else if position == 3 {
            Tab::Health
        } else {
            Tab::Instances
        }
    }

    /// The tab to the right, the first one after the last.
    pub open spec fn right(self) -> Tab {
        Tab::at((self.position() + 1) % 4)
    }

    /// The tab to the left, the last one before the first.
    pub open spec fn left(self) -> Tab {
        Tab::at((self.position() + 3) % 4)
    }

    /// The tab's title.
    pub open spec fn label(self) -> Seq<char> {
        match self {
            Tab::Instances => "Instances"@,
            Tab::Images => "Images"@,
            Tab::Metrics => "Metrics"@,
            Tab::Health => "Health"@,
        }
    }

    /// The tab's title.
    pub fn as_str(&self) -> (name: &'static str)
        ensures
            name@ == self.label(),
    {
        match self {
            Tab::Instances => "Instances",
            Tab::Images => "Images",
            Tab::Metrics => "Metrics",
            Tab::Health => "Health",
        }
    }

    /// The four tabs in the order of the tab bar.
    pub fn all() -> (tabs: &'static [Tab])
        ensures
            tabs@ == seq![Tab::Instances, Tab::Images, Tab::Metrics, Tab::Health],
            forall|i: int| 0 <= i < 4 ==> (#[trigger] tabs@[i]).position() == i,
    {
        let tabs: &'static [Tab] = &[Tab::Instances, Tab::Images, Tab::Metrics, Tab::Health];
        assert(tabs@ =~= seq![Tab::Instances, Tab::Images, Tab::Metrics, Tab::Health]);
        tabs
    }

    /// The tab's position in the tab bar.
    pub fn index(&self) -> (position: usize)
        ensures
            position == self.position(),
    {
        match self {
            Tab::Instances => 0,
            Tab::Images => 1,
            Tab::Metrics => 2,
            Tab::Health => 3,
        }
    }

    /// The tab at `position`, or `Instances` where the bar has no such position.
    pub fn from_index(position: usize) -> (tab: Tab)
        ensures
            tab == Tab::at(position as int),
    {
        match position {
            1 => Tab::Images,
            2 => Tab::Metrics,
            3 => Tab::Health,
            _ => Tab::Instances,
        }
    }
}

impl Default for Tab {
    fn default() -> (tab: Self)
        ensures
            tab == Tab::Instances,
    {
        Tab::Instances
    }
}

/// The kind of the innermost frame of the navigation stack.
///
/// The stack always holds the frames from `List` up to the current kind, in
/// the order in which the variants are declared.
#[derive(Debug, Clone, Copy, PartialEq, Eq, Structural)]
pub enum ViewMode {
    /// The base frame: the tabs.
    List,
    /// One instance in full.
    InstanceDetail,
    /// The checkpoints of the open instance.
    CheckpointsList,
    /// One checkpoint with its payload.
    CheckpointDetail,
}

impl ViewMode {
    /// The number of frames on the stack when `self` is the innermost.
    pub open spec fn depth(self) -> nat {
        match self {
            ViewMode::List => 1,
            ViewMode::InstanceDetail => 2,
            ViewMode::CheckpointsList => 3,
            ViewMode::CheckpointDetail => 4,
        }
    }

    /// The frame kind found at `height` frames above the ground.
    pub open spec fn at_depth(depth: nat) -> ViewMode {
        if depth <= 1 {
            ViewMode::List
        } else if depth == 2 {
            ViewMode::InstanceDetail
        } else if depth == 3 {
            ViewMode::CheckpointsList
        } else {
            ViewMode::CheckpointDetail
        }
    }

    /// The navigation stack, base frame first.
    pub open spec fn stack(self) -> Seq<ViewMode> {
        Seq::new(self.depth(), |i: int| ViewMode::at_depth((i + 1) as nat))
    }

    /// The frame below; the base frame has none and stays.
    pub open spec fn parent(self) -> ViewMode {
        match self {
            ViewMode::List => ViewMode::List,
            ViewMode::InstanceDetail => ViewMode::List,
            ViewMode::CheckpointsList => ViewMode::InstanceDetail,
            ViewMode::CheckpointDetail => ViewMode::CheckpointsList,
        }
    }
}

impl Default for ViewMode {
    fn default() -> (mode: Self)
        ensures
            mode == ViewMode::List,
    {
        ViewMode::List
    }
}

} // verus!
