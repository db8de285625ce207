//! The status filter of the instance list.

use runtara_management_sdk::InstanceStatus;
use vstd::prelude::*;

verus! {

/// Which instances the instance list asks the server for.
#[derive(Debug, Clone, Copy, PartialEq, Eq, Structural)]
pub enum StatusFilter {
    All,
    Running,
    Completed,
    Failed,
    Pending,
    Suspended,
}

impl StatusFilter {
    /// The filter that follows `self` in the fixed order
    /// All, Running, Completed, Failed, Pending, Suspended, All, ...
    pub open spec fn successor(self) -> StatusFilter {
        match self {
            StatusFilter::All => StatusFilter::Running,
            StatusFilter::Running => StatusFilter::Completed,
            StatusFilter::Completed => StatusFilter::Failed,
            StatusFilter::Failed => StatusFilter::Pending,
            StatusFilter::Pending => StatusFilter::Suspended,
            StatusFilter::Suspended => StatusFilter::All,
        }
    }

    /// The instance state that the filter lets through; `None` for `All`.
    pub open spec fn status(self) -> Option<InstanceStatus> {
        match self {
            StatusFilter::All => None,
            StatusFilter::Running => Some(InstanceStatus::Running),
            StatusFilter::Completed => Some(InstanceStatus::Completed),
            StatusFilter::Failed => Some(InstanceStatus::Failed),
            StatusFilter::Pending => Some(InstanceStatus::Pending),
            StatusFilter::Suspended => Some(InstanceStatus::Suspended),
        }
    }

    /// The filter's name as the dashboard shows it.
    pub open spec fn label(self) -> Seq<char> {
        match self {
            StatusFilter::All => "All"@,
            StatusFilter::Running => "Running"@,
            StatusFilter::Completed => "Completed"@,
            StatusFilter::Failed => "Failed"@,
            StatusFilter::Pending => "Pending"@,
            StatusFilter::Suspended => "Suspended"@,
        }
    }

    /// The filter's name as the dashboard shows it.
    pub fn as_str(&self) -> (name: &'static str)
        ensures
            name@ == self.label(),
    {
        match self {
            StatusFilter::All => "All",
            StatusFilter::Running => "Running",
            StatusFilter::Completed => "Completed",
            StatusFilter::Failed => "Failed",
            StatusFilter::Pending => "Pending",
            StatusFilter::Suspended => "Suspended",
        }
    }

    /// The instance state to ask the server for; `None` asks for all.
    pub fn to_instance_status(&self) -> (status: Option<InstanceStatus>)
        ensures
            status == self.status(),
    {
        match self {
            StatusFilter::All => None,
            StatusFilter::Running => Some(InstanceStatus::Running),
            StatusFilter::Completed => Some(InstanceStatus::Completed),
            StatusFilter::Failed => Some(InstanceStatus::Failed),
            StatusFilter::Pending => Some(InstanceStatus::Pending),
            StatusFilter::Suspended => Some(InstanceStatus::Suspended),
        }
    }

    /// The filter that follows in the fixed order, `All` after the last.
    pub fn next(&self) -> (following: Self)
        ensures
            following == self.successor(),
    {
        match self {
            StatusFilter::All => StatusFilter::Running,
            StatusFilter::Running => StatusFilter::Completed,
            StatusFilter::Completed => StatusFilter::Failed,
            StatusFilter::Failed => StatusFilter::Pending,
            StatusFilter::Pending => StatusFilter::Suspended,
            StatusFilter::Suspended => StatusFilter::All,
        }
    }
}

impl Default for StatusFilter {
    fn default() -> (filter: Self)
        ensures
            filter == StatusFilter::All,
    {
        StatusFilter::All
    }
}

/// Stepping through the filters six times comes back to where it began.
pub proof fn lemma_filter_cycle_has_six_steps(filter: StatusFilter)
    ensures
        filter.successor().successor().successor().successor().successor().successor() == filter,
        filter.successor() != filter,
{
}

} // verus!
