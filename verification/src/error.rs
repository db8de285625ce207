//! What the error slot of the dashboard holds.

use vstd::prelude::*;

verus! {

/// The fetches that follow a connection.
#[derive(Debug, Clone, Copy, PartialEq, Eq, Structural)]
pub enum Fetch {
    Health,
    Instances,
    Images,
    Metrics,
    InstanceDetail,
    Checkpoints,
    Checkpoint,
}

/// Why no connection to the server came about. Each variant carries the
/// client's own description of the failure.
#[derive(Debug, PartialEq, Eq)]
pub enum ConnectError {
    /// The client could not be set up.
    Client(String),
    /// The client was set up, and the server did not answer it.
    Unreachable(String),
}

/// A failure as the dashboard remembers it. Where a variant carries a text,
/// it is the client's own description of the failure.
#[derive(Debug, PartialEq, Eq)]
pub enum AppError {
    /// The client could not be set up.
    Client(String),
    /// The server could not be reached.
    Connection(String),
    /// The server was reached and one fetch failed.
    Request(Fetch, String),
    /// The checkpoint that was asked for is gone.
    CheckpointNotFound,
}

impl Fetch {
    /// What the message of a failed fetch begins with.
    pub open spec fn failure_prefix(self) -> Seq<char> {
        match self {
            Fetch::Health => "Health check failed: "@,
            Fetch::Instances => "Failed to list instances: "@,
            Fetch::Images => "Failed to list images: "@,
            Fetch::Metrics => "Failed to get metrics: "@,
            Fetch::InstanceDetail => "Failed to get instance details: "@,
            Fetch::Checkpoints => "Failed to list checkpoints: "@,
            Fetch::Checkpoint => "Failed to get checkpoint: "@,
        }
    }

    fn failure_prefix_str(&self) -> (prefix: &'static str)
        ensures
            prefix@ == self.failure_prefix(),
    {
        match self {
            Fetch::Health => "Health check failed: ",
            Fetch::Instances => "Failed to list instances: ",
            Fetch::Images => "Failed to list images: ",
            Fetch::Metrics => "Failed to get metrics: ",
            Fetch::InstanceDetail => "Failed to get instance details: ",
            Fetch::Checkpoints => "Failed to list checkpoints: ",
            Fetch::Checkpoint => "Failed to get checkpoint: ",
        }
    }
}

impl AppError {
    /// The failure of a connection attempt, as the error slot holds it.
    pub open spec fn of_connect(error: ConnectError) -> AppError {
        match error {
            ConnectError::Client(detail) => AppError::Client(detail),
            ConnectError::Unreachable(detail) => AppError::Connection(detail),
        }
    }

    /// The message that the dashboard shows for the failure.
    pub open spec fn text(self) -> Seq<char> {
        match self {
            AppError::Client(detail) => "Failed to create SDK: "@ + detail@,
            AppError::Connection(detail) => "Connection failed: "@ + detail@,
            AppError::Request(fetch, detail) => fetch.failure_prefix() + detail@,
            AppError::CheckpointNotFound => "Checkpoint not found"@,
        }
    }

    /// The failure of a connection attempt, as the error slot holds it.
    pub fn from_connect(error: ConnectError) -> (held: AppError)
        ensures
            held == AppError::of_connect(error),
    {
        match error {
            ConnectError::Client(detail) => AppError::Client(detail),
            ConnectError::Unreachable(detail) => AppError::Connection(detail),
        }
    }

    /// The message that the dashboard shows for the failure.
    pub fn message(&self) -> (message: String)
        ensures
            message@ == self.text(),
    {
        match self {
            AppError::Client(detail) => "Failed to create SDK: ".to_owned().concat(detail.as_str()),
            AppError::Connection(detail) => "Connection failed: ".to_owned().concat(
                detail.as_str(),
            ),
            AppError::Request(fetch, detail) => fetch.failure_prefix_str().to_owned().concat(
                detail.as_str(),
            ),
            AppError::CheckpointNotFound => "Checkpoint not found".to_owned(),
        }
    }
}

} // verus!
