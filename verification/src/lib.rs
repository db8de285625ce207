//! State machine of a read-only monitoring dashboard.
//!
//! The crate holds the view model of the dashboard (what is shown, which row
//! is selected, which detail frame is open), the rules by which key presses
//! and fetched data change it, and the order in which a refresh asks the
//! server for data. It performs no I/O: the caller carries out each
//! [`Request`] and hands the result back.

pub mod app;
pub mod error;
pub mod fetch;
pub mod foreign;
pub mod input;
pub mod laws;
pub mod model;
pub mod records;
pub mod request;
pub mod rows;
pub mod selection;
pub mod status_filter;
pub mod tab;
pub mod text;

pub use app::App;
pub use error::{AppError, ConnectError, Fetch};
pub use records::{
    Checkpoint, CheckpointPage, CheckpointSummary, ImagePage, ImageSummary, InstanceInfo,
    InstancePage, InstanceSummary, TenantMetrics,
};
pub use input::{dispatch, Action, Effect, Key};
pub use model::Model;
pub use request::{Operation, Request, PAGE_LIMIT};
pub use status_filter::StatusFilter;
pub use tab::{Tab, ViewMode};
pub use text::{
    format_datetime, format_duration, format_optional_datetime, help_text, status_style,
    to_decimal, truncate, ByteUnit,
};
