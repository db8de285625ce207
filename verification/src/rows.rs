//! The cells of the three lists, the titles above them and the notes in the
//! header and the footer.
//!
//! Every text in a column is cut down to the column's width in bytes. A
//! text that would be cut inside a character cannot be put into its column,
//! and a list that holds one has no rows.

use crate::app::App;
use crate::records::{CheckpointSummary, ImageSummary, InstanceSummary};
use crate::tab::ViewMode;
use crate::text::{
    can_be_truncated, datetime_text, decimal, format_datetime, format_optional_datetime,
    status_color, status_label, status_style, text_or_dash, to_decimal, truncated, try_truncate,
    utc_text,
};
use ratatui::style::Color;
use runtara_management_sdk::RunnerType;
use vstd::prelude::*;

verus! {

/// The width in bytes of the column of instance names.
pub const INSTANCE_ID_WIDTH: usize = 36;

/// The width in bytes of the column of image names in the image list.
pub const IMAGE_ID_WIDTH: usize = 36;

/// The width in bytes of the column of tenants.
pub const TENANT_WIDTH: usize = 20;

/// The width in bytes of the column of image names in the instance list.
pub const IMAGE_REF_WIDTH: usize = 20;

/// The width in bytes of the column of the images' readable names.
pub const IMAGE_NAME_WIDTH: usize = 30;

/// The width in bytes of the column of descriptions.
pub const DESCRIPTION_WIDTH: usize = 30;

/// The width in bytes of the column of checkpoint names.
pub const CHECKPOINT_ID_WIDTH: usize = 40;

/// The width in bytes of the instance's name in the title of its checkpoint list.
pub const TITLE_INSTANCE_WIDTH: usize = 20;

/// The width in bytes of the checkpoint's name in the title of its frame.
pub const TITLE_CHECKPOINT_WIDTH: usize = 30;

/// One line of the instance list.
#[derive(Debug, PartialEq, Eq)]
pub struct InstanceRow {
    pub instance_id: String,
    pub status: &'static str,
    pub status_color: Color,
    pub tenant_id: String,
    pub image_id: String,
    pub created_at: String,
    pub finished_at: String,
    /// Whether the cursor is on the line.
    pub selected: bool,
}

/// One line of the image list.
#[derive(Debug, PartialEq, Eq)]
pub struct ImageRow {
    pub image_id: String,
    pub name: String,
    pub tenant_id: String,
    pub runner: &'static str,
    pub created_at: String,
    pub description: String,
    /// Whether the cursor is on the line.
    pub selected: bool,
}

/// One line of the checkpoint list.
#[derive(Debug, PartialEq, Eq)]
pub struct CheckpointRow {
    pub checkpoint_id: String,
    pub created_at: String,
    pub data_size_bytes: u64,
    /// Whether the cursor is on the line.
    pub selected: bool,
}

/// The name of a runner kind.
pub open spec fn runner_label(runner: RunnerType) -> Seq<char> {
    match runner {
        RunnerType::Oci => "Oci"@,
        RunnerType::Native => "Native"@,
        RunnerType::Wasm => "Wasm"@,
    }
}

/// The name of a runner kind.
pub fn runner_name(runner: RunnerType) -> (name: &'static str)
    ensures
        name@ == runner_label(runner),
{
    match runner {
        RunnerType::Oci => "Oci",
        RunnerType::Native => "Native",
        RunnerType::Wasm => "Wasm",
    }
}

/// The description of an image as its column shows it before it is cut
/// down: a dash where the image has none.
pub open spec fn description_text(description: Option<String>) -> Seq<char> {
    match description {
        Some(text) => text@,
        None => "-"@,
    }
}

/// Whether the texts of an instance can be put into their columns.
pub open spec fn instance_fits(instance: InstanceSummary) -> bool {
    &&& can_be_truncated(instance.instance_id@, INSTANCE_ID_WIDTH as int)
    &&& can_be_truncated(instance.tenant_id@, TENANT_WIDTH as int)
    &&& can_be_truncated(instance.image_id@, IMAGE_REF_WIDTH as int)
}

/// Whether `row` is the line of `instance`.
pub open spec fn is_instance_row(
    row: InstanceRow,
    instance: InstanceSummary,
    selected: bool,
) -> bool {
    &&& row.instance_id@ == truncated(instance.instance_id@, INSTANCE_ID_WIDTH as int)
    &&& row.status@ == status_label(instance.status)
    &&& row.status_color == status_color(instance.status)
    &&& row.tenant_id@ == truncated(instance.tenant_id@, TENANT_WIDTH as int)
    &&& row.image_id@ == truncated(instance.image_id@, IMAGE_REF_WIDTH as int)
    &&& row.created_at@ == text_or_dash(utc_text(instance.created_at as int))
    &&& row.finished_at@ == datetime_text(instance.finished_at)
    &&& row.selected == selected
}

/// Whether the texts of an image can be put into their columns.
pub open spec fn image_fits(image: ImageSummary) -> bool {
    &&& can_be_truncated(image.image_id@, IMAGE_ID_WIDTH as int)
    &&& can_be_truncated(image.name@, IMAGE_NAME_WIDTH as int)
    &&& can_be_truncated(image.tenant_id@, TENANT_WIDTH as int)
    &&& can_be_truncated(description_text(image.description), DESCRIPTION_WIDTH as int)
}

/// Whether `row` is the line of `image`.
pub open spec fn is_image_row(row: ImageRow, image: ImageSummary, selected: bool) -> bool {
    &&& row.image_id@ == truncated(image.image_id@, IMAGE_ID_WIDTH as int)
    &&& row.name@ == truncated(image.name@, IMAGE_NAME_WIDTH as int)
    &&& row.tenant_id@ == truncated(image.tenant_id@, TENANT_WIDTH as int)
    &&& row.runner@ == runner_label(image.runner_type)
    &&& row.created_at@ == text_or_dash(utc_text(image.created_at as int))
    &&& row.description@ == truncated(
        description_text(image.description),
        DESCRIPTION_WIDTH as int,
    )
    &&& row.selected == selected
}

/// Whether the texts of a checkpoint can be put into their columns.
pub open spec fn checkpoint_fits(checkpoint: CheckpointSummary) -> bool {
    can_be_truncated(checkpoint.checkpoint_id@, CHECKPOINT_ID_WIDTH as int)
}

/// Whether `row` is the line of `checkpoint`.
pub open spec fn is_checkpoint_row(
    row: CheckpointRow,
    checkpoint: CheckpointSummary,
    selected: bool,
) -> bool {
    &&& row.checkpoint_id@ == truncated(checkpoint.checkpoint_id@, CHECKPOINT_ID_WIDTH as int)
    &&& row.created_at@ == text_or_dash(utc_text(checkpoint.created_at as int))
    &&& row.data_size_bytes == checkpoint.data_size_bytes
    &&& row.selected == selected
}

/// The line of one instance, if its texts can be put into their columns.
pub fn instance_row(instance: &InstanceSummary, selected: bool) -> (row: Option<InstanceRow>)
    ensures
        row is Some <==> instance_fits(*instance),
        row matches Some(line) ==> is_instance_row(line, *instance, selected),
{
    let instance_id = try_truncate(instance.instance_id.as_str(), INSTANCE_ID_WIDTH);
    let tenant_id = try_truncate(instance.tenant_id.as_str(), TENANT_WIDTH);
    let image_id = try_truncate(instance.image_id.as_str(), IMAGE_REF_WIDTH);
    match (instance_id, tenant_id, image_id) {
        (Some(instance_id), Some(tenant_id), Some(image_id)) => {
            let (status, status_color) = status_style(instance.status);
            Some(
                InstanceRow {
                    instance_id,
                    status,
                    status_color,
                    tenant_id,
                    image_id,
                    created_at: format_datetime(instance.created_at),
                    finished_at: format_optional_datetime(instance.finished_at),
                    selected,
                },
            )
        },
        _ => None,
    }
}

/// The line of one image, if its texts can be put into their columns.
pub fn image_row(image: &ImageSummary, selected: bool) -> (row: Option<ImageRow>)
    ensures
        row is Some <==> image_fits(*image),
        row matches Some(line) ==> is_image_row(line, *image, selected),
{
    let image_id = try_truncate(image.image_id.as_str(), IMAGE_ID_WIDTH);
    let name = try_truncate(image.name.as_str(), IMAGE_NAME_WIDTH);
    let tenant_id = try_truncate(image.tenant_id.as_str(), TENANT_WIDTH);
    let description = match &image.description {
        Some(text) => try_truncate(text.as_str(), DESCRIPTION_WIDTH),
        None => try_truncate("-", DESCRIPTION_WIDTH),
    };
    match (image_id, name, tenant_id, description) {
        (Some(image_id), Some(name), Some(tenant_id), Some(description)) => Some(
            ImageRow {
                image_id,
                name,
                tenant_id,
                runner: runner_name(image.runner_type),
                created_at: format_datetime(image.created_at),
                description,
                selected,
            },
        ),
        _ => None,
    }
}

/// The line of one checkpoint, if its name can be put into its column.
pub fn checkpoint_row(checkpoint: &CheckpointSummary, selected: bool) -> (row: Option<
    CheckpointRow,
>)
    ensures
        row is Some <==> checkpoint_fits(*checkpoint),
        row matches Some(line) ==> is_checkpoint_row(line, *checkpoint, selected),
{
    match try_truncate(checkpoint.checkpoint_id.as_str(), CHECKPOINT_ID_WIDTH) {
        Some(checkpoint_id) => Some(
            CheckpointRow {
                checkpoint_id,
                created_at: format_datetime(checkpoint.created_at),
                data_size_bytes: checkpoint.data_size_bytes,
                selected,
            },
        ),
        None => None,
    }
}

/// The title of the instance list.
pub open spec fn instances_title_text(rows: nat) -> Seq<char> {
    " Instances ("@ + decimal(rows) + ") "@
}

/// The title of the image list.
pub open spec fn images_title_text(rows: nat) -> Seq<char> {
    " Images ("@ + decimal(rows) + ") "@
}

/// The title of the checkpoint list of the instance `instance_id`, of which
/// the server holds `total` checkpoints.
pub open spec fn checkpoints_title_text(instance_id: Seq<char>, total: nat) -> Seq<char> {
    " Checkpoints for "@ + truncated(instance_id, TITLE_INSTANCE_WIDTH as int) + " ("@ + decimal(
        total,
    ) + ") "@
}

/// The title of the frame of the checkpoint `checkpoint_id`.
pub open spec fn checkpoint_title_text(checkpoint_id: Seq<char>) -> Seq<char> {
    " Checkpoint: "@ + truncated(checkpoint_id, TITLE_CHECKPOINT_WIDTH as int) + " "@
}

/// The note on the tenant in the footer.
pub open spec fn tenant_note_text(tenant_id: Option<String>) -> Seq<char> {
    match tenant_id {
        Some(tenant_id) => " | Tenant: "@ + tenant_id@,
        None => Seq::empty(),
    }
}

/// The note on the next refresh in the footer, `seconds` before it is due.
pub open spec fn refresh_note_text(seconds: Option<int>) -> Seq<char> {
    match seconds {
        Some(seconds) => " | Next refresh in "@ + decimal(seconds as nat) + "s"@,
        None => Seq::empty(),
    }
}

/// The age of the data on display, `seconds` after the last refresh.
pub open spec fn last_refresh_text(seconds: Option<int>) -> Seq<char> {
    match seconds {
        Some(seconds) => decimal(seconds as nat) + "s ago"@,
        None => "Never"@,
    }
}

impl App {
    /// What the header says of the connection.
    pub fn connection_label(&self) -> (label: &'static str)
        ensures
            label@ == (if self.connected {
                " Connected "@
            } else {
                " Disconnected "@
            }),
    {
        if self.connected {
            " Connected "
        } else {
            " Disconnected "
        }
    }

    /// The note on the tenant in the footer; empty without a tenant.
    pub fn tenant_note(&self) -> (note: String)
        ensures
            note@ == tenant_note_text(self.tenant_id),
    {
        match &self.tenant_id {
            Some(tenant_id) => " | Tenant: ".to_owned().concat(tenant_id.as_str()),
            None => String::new(),
        }
    }

    /// The note on the next refresh in the footer. Only the base frame has
    /// it, and only once a refresh has ended.
    pub fn refresh_note(&self, now: u64) -> (note: String)
        ensures
            note@ == refresh_note_text(
                if self.view_mode == ViewMode::List {
                    self@.seconds_until_refresh(now)
                } else {
                    None
                },
            ),
    {
        if self.view_mode == ViewMode::List {
            match self.seconds_until_refresh(now) {
                Some(seconds) => " | Next refresh in ".to_owned().concat(
                    to_decimal(seconds).as_str(),
                ).concat("s"),
                None => String::new(),
            }
        } else {
            String::new()
        }
    }

    /// The age of the data on display, as the health tab shows it.
    pub fn last_refresh_note(&self, now: u64) -> (note: String)
        ensures
            note@ == last_refresh_text(self@.seconds_since_refresh(now)),
    {
        match self.seconds_since_refresh(now) {
            Some(seconds) => to_decimal(seconds).concat("s ago"),
            None => "Never".to_owned(),
        }
    }

    /// The lines of the instance list in the order of the list, the cursor's
    /// line marked; `None` where a text cannot be put into its column.
    pub fn instance_rows(&self) -> (rows: Option<Vec<InstanceRow>>)
        ensures
            rows is Some <==> forall|i: int|
                0 <= i < self.instances@.len() ==> instance_fits(#[trigger] self.instances@[i]),
            rows matches Some(lines) ==> lines@.len() == self.instances@.len() && forall|i: int|
                0 <= i < lines@.len() ==> is_instance_row(
                    #[trigger] lines@[i],
                    self.instances@[i],
                    i == self.instances_selected,
                ),
    {
        let mut lines: Vec<InstanceRow> = Vec::new();
        let mut at: usize = 0;
        while at < self.instances.len()
            invariant
                at <= self.instances@.len(),
                lines@.len() == at,
                forall|i: int| 0 <= i < at ==> instance_fits(#[trigger] self.instances@[i]),
                forall|i: int|
                    0 <= i < at ==> is_instance_row(
                        #[trigger] lines@[i],
                        self.instances@[i],
                        i == self.instances_selected,
                    ),
            decreases self.instances@.len() - at,
        {
            match instance_row(&self.instances[at], at == self.instances_selected) {
                Some(line) => {
                    lines.push(line);
                },
                None => {
                    assert(!instance_fits(self.instances@[at as int]));
                    return None;
                },
            }
            at += 1;
        }
        Some(lines)
    }

    /// The lines of the image list in the order of the list, the cursor's
    /// line marked; `None` where a text cannot be put into its column.
    pub fn image_rows(&self) -> (rows: Option<Vec<ImageRow>>)
        ensures
            rows is Some <==> forall|i: int|
                0 <= i < self.images@.len() ==> image_fits(#[trigger] self.images@[i]),
            rows matches Some(lines) ==> lines@.len() == self.images@.len() && forall|i: int|
                0 <= i < lines@.len() ==> is_image_row(
                    #[trigger] lines@[i],
                    self.images@[i],
                    i == self.images_selected,
                ),
    {
        let mut lines: Vec<ImageRow> = Vec::new();
        let mut at: usize = 0;
        while at < self.images.len()
            invariant
                at <= self.images@.len(),
                lines@.len() == at,
                forall|i: int| 0 <= i < at ==> image_fits(#[trigger] self.images@[i]),
                forall|i: int|
                    0 <= i < at ==> is_image_row(
                        #[trigger] lines@[i],
                        self.images@[i],
                        i == self.images_selected,
                    ),
            decreases self.images@.len() - at,
        {
            match image_row(&self.images[at], at == self.images_selected) {
                Some(line) => {
                    lines.push(line);
                },
                None => {
                    assert(!image_fits(self.images@[at as int]));
                    return None;
                },
            }
            at += 1;
        }
        Some(lines)
    }

    /// The lines of the checkpoint list in the order of the list, the
    /// cursor's line marked; `None` where a name cannot be put into its
    /// column.
    pub fn checkpoint_rows(&self) -> (rows: Option<Vec<CheckpointRow>>)
        ensures
            rows is Some <==> forall|i: int|
                0 <= i < self.checkpoints@.len() ==> checkpoint_fits(
                    #[trigger] self.checkpoints@[i],
                ),
            rows matches Some(lines) ==> lines@.len() == self.checkpoints@.len() && forall|
                i: int,
            |
                0 <= i < lines@.len() ==> is_checkpoint_row(
                    #[trigger] lines@[i],
                    self.checkpoints@[i],
                    i == self.checkpoints_selected,
                ),
    {
        let mut lines: Vec<CheckpointRow> = Vec::new();
        let mut at: usize = 0;
        while at < self.checkpoints.len()
            invariant
                at <= self.checkpoints@.len(),
                lines@.len() == at,
                forall|i: int| 0 <= i < at ==> checkpoint_fits(#[trigger] self.checkpoints@[i]),
                forall|i: int|
                    0 <= i < at ==> is_checkpoint_row(
                        #[trigger] lines@[i],
                        self.checkpoints@[i],
                        i == self.checkpoints_selected,
                    ),
            decreases self.checkpoints@.len() - at,
        {
            match checkpoint_row(&self.checkpoints[at], at == self.checkpoints_selected) {
                Some(line) => {
                    lines.push(line);
                },
                None => {
                    assert(!checkpoint_fits(self.checkpoints@[at as int]));
                    return None;
                },
            }
            at += 1;
        }
        Some(lines)
    }

    /// The title of the instance list: the number of rows on display.
    pub fn instances_title(&self) -> (title: String)
        ensures
            title@ == instances_title_text(self.instances@.len()),
    {
        " Instances (".to_owned().concat(to_decimal(self.instances.len() as u64).as_str()).concat(
            ") ",
        )
    }

    /// The title of the image list: the number of rows on display.
    pub fn images_title(&self) -> (title: String)
        ensures
            title@ == images_title_text(self.images@.len()),
    {
        " Images (".to_owned().concat(to_decimal(self.images.len() as u64).as_str()).concat(") ")
    }

    /// The title of the checkpoint list: the open instance, "Unknown" where
    /// none is open, and the server's count of its checkpoints. `None` where
    /// the name of the instance would be cut inside a character.
    pub fn checkpoints_title(&self) -> (title: Option<String>)
        ensures
            ({
                let name = match self.instance_detail {
                    Some(info) => info.instance_id@,
                    None => "Unknown"@,
                };
                &&& title is Some <==> can_be_truncated(name, TITLE_INSTANCE_WIDTH as int)
                &&& title matches Some(text) ==> text@ == checkpoints_title_text(
                    name,
                    self.checkpoints_total as nat,
                )
            }),
    {
        let name = match &self.instance_detail {
            Some(info) => try_truncate(info.instance_id.as_str(), TITLE_INSTANCE_WIDTH),
            None => try_truncate("Unknown", TITLE_INSTANCE_WIDTH),
        };
        match name {
            Some(name) => Some(
                " Checkpoints for ".to_owned().concat(name.as_str()).concat(" (").concat(
                    to_decimal(self.checkpoints_total as u64).as_str(),
                ).concat(") "),
            ),
            None => None,
        }
    }

    /// The title of the checkpoint frame; `None` where no checkpoint is open
    /// or its name would be cut inside a character.
    pub fn checkpoint_title(&self) -> (title: Option<String>)
        ensures
            title is Some <==> (self.checkpoint_detail matches Some(checkpoint)
                && can_be_truncated(checkpoint.checkpoint_id@, TITLE_CHECKPOINT_WIDTH as int)),
            title matches Some(text) ==> text@ == checkpoint_title_text(
                self.checkpoint_detail->0.checkpoint_id@,
            ),
    {
        match &self.checkpoint_detail {
            Some(checkpoint) => match try_truncate(
                checkpoint.checkpoint_id.as_str(),
                TITLE_CHECKPOINT_WIDTH,
            ) {
                Some(name) => Some(" Checkpoint: ".to_owned().concat(name.as_str()).concat(" ")),
                None => None,
            },
            None => None,
        }
    }
}

} // verus!
