//! The texts that the dashboard shows for numbers, times and states.

use crate::tab::{Tab, ViewMode};
use ratatui::style::Color;
use runtara_management_sdk::{InstanceStatus, MetricsGranularity};
use vstd::prelude::*;
use vstd::string::StringSliceAdditionalSpecFns;
use vstd::utf8::{decode_utf8, encode_utf8, is_char_boundary};

verus! {

/// The character of a decimal digit.
pub open spec fn digit(value: nat) -> char {
    if value == 0 {
        '0'
    } else if value == 1 {
        '1'
    } else if value == 2 {
        '2'
    } else if value == 3 {
        '3'
    } else if value == 4 {
        '4'
    } else if value == 5 {
        '5'
    } else if value == 6 {
        '6'
    } else if value == 7 {
        '7'
    } else if value == 8 {
        '8'
    } else {
        '9'
    }
}

/// A number in decimal digits, without leading zeros.
pub open spec fn decimal(value: nat) -> Seq<char>
    decreases value,
{
    if value < 10 {
        seq![digit(value)]
    } else {
        decimal(value / 10).push(digit(value % 10))
    }
}

/// A time span of `ms` milliseconds in its two largest units from days to
/// seconds, the smaller one counted within the larger; a span under a
/// minute in seconds alone. Fractions of a second are dropped.
pub open spec fn duration_text(ms: nat) -> Seq<char> {
    let secs = ms / 1000;
    let mins = secs / 60;
    let hours = mins / 60;
    let days = hours / 24;
    if days > 0 {
        decimal(days) + "d "@ + decimal(hours % 24) + "h"@
    } else if hours > 0 {
        decimal(hours) + "h "@ + decimal(mins % 60) + "m"@
    } else if mins > 0 {
        decimal(mins) + "m "@ + decimal(secs % 60) + "s"@
    } else {
        decimal(secs) + "s"@
    }
}

fn digit_str(value: u64) -> (text: &'static str)
    requires
        value < 10,
    ensures
        text@ == seq![digit(value as nat)],
{
    proof {
        reveal_strlit("0");
        reveal_strlit("1");
        reveal_strlit("2");
        reveal_strlit("3");
        reveal_strlit("4");
        reveal_strlit("5");
        reveal_strlit("6");
        reveal_strlit("7");
        reveal_strlit("8");
        reveal_strlit("9");
    }
    let text = match value {
        0 => "0",
        1 => "1",
        2 => "2",
        3 => "3",
        4 => "4",
        5 => "5",
        6 => "6",
        7 => "7",
        8 => "8",
        _ => "9",
    };
    assert(text@ =~= seq![digit(value as nat)]);
    text
}

/// Writes `value` in decimal digits.
pub fn to_decimal(value: u64) -> (text: String)
    ensures
        text@ == decimal(value as nat),
    decreases value,
{
    if value < 10 {
        digit_str(value).to_owned()
    } else {
        let text = to_decimal(value / 10).concat(digit_str(value % 10));
        assert(text@ =~= decimal(value as nat));
        text
    }
}

/// Writes a time span of `ms` milliseconds for display: "2d 3h", "1h 5m",
/// "4m 10s" or "59s".
pub fn format_duration(ms: u64) -> (text: String)
    ensures
        text@ == duration_text(ms as nat),
{
    let secs = ms / 1000;
    let mins = secs / 60;
    let hours = mins / 60;
    let days = hours / 24;
    if days > 0 {
        to_decimal(days).concat("d ").concat(to_decimal(hours % 24).as_str()).concat("h")
    } else if hours > 0 {
        to_decimal(hours).concat("h ").concat(to_decimal(mins % 60).as_str()).concat("m")
    } else if mins > 0 {
        to_decimal(mins).concat("m ").concat(to_decimal(secs % 60).as_str()).concat("s")
    } else {
        to_decimal(secs).concat("s")
    }
}

/// The calendar text of the second that lies `secs` seconds after the start
/// of 1970, UTC, in the form "2024-05-17 08:30:00"; `None` where `chrono`
/// has no date for it.
pub uninterp spec fn utc_text(secs: int) -> Option<Seq<char>>;

/// The date and time that `chrono::DateTime::from_timestamp` finds for a
/// second, written by `DateTime::format` with the pattern
/// "%Y-%m-%d %H:%M:%S". The contract gives that text a name and claims only
/// that the same second always gives the same text, and none where
/// `from_timestamp` gives no date.
#[verifier::external_body]
fn calendar_text(secs: i64) -> (text: Option<String>)
    ensures
        text is Some <==> utc_text(secs as int) is Some,
        text matches Some(written) ==> utc_text(secs as int) == Some(written@),
{
    match chrono::DateTime::from_timestamp(secs, 0) {
        Some(at) => Some(at.format("%Y-%m-%d %H:%M:%S").to_string()),
        None => None,
    }
}

/// What stands in a column for `text`: the text, or a dash where there is
/// none.
pub open spec fn text_or_dash(text: Option<Seq<char>>) -> Seq<char> {
    match text {
        Some(written) => written,
        None => "-"@,
    }
}

/// What stands in a column for a point in time that may be missing.
pub open spec fn datetime_text(at: Option<i64>) -> Seq<char> {
    match at {
        Some(secs) => text_or_dash(utc_text(secs as int)),
        None => "-"@,
    }
}

/// The text, or a dash where there is none.
pub fn or_dash(text: Option<String>) -> (shown: String)
    ensures
        shown@ == text_or_dash(
            match text {
                Some(written) => Some(written@),
                None => None,
            },
        ),
{
    match text {
        Some(written) => written,
        None => "-".to_owned(),
    }
}

/// Writes a point in time, given in seconds since the start of 1970, as its
/// UTC date and time; a dash where the calendar does not reach.
pub fn format_datetime(secs: i64) -> (text: String)
    ensures
        text@ == text_or_dash(utc_text(secs as int)),
{
    or_dash(calendar_text(secs))
}

/// Writes a point in time that may be missing: a dash where it is.
pub fn format_optional_datetime(at: Option<i64>) -> (text: String)
    ensures
        text@ == datetime_text(at),
{
    match at {
        Some(secs) => format_datetime(secs),
        None => "-".to_owned(),
    }
}

/// How many bytes of a text that is too long are kept in front of the dots.
pub open spec fn kept_bytes(max_len: int) -> int {
    if max_len >= 3 {
        max_len - 3
    } else {
        0
    }
}

/// A text cut down for a column of `max_len` bytes: the text itself where
/// it fits, else its first `max_len - 3` bytes and three dots.
pub open spec fn truncated(text: Seq<char>, max_len: int) -> Seq<char> {
    let bytes = encode_utf8(text);
    if bytes.len() <= max_len {
        text
    } else {
        decode_utf8(bytes.subrange(0, kept_bytes(max_len))) + "..."@
    }
}

/// Cuts `text` down for a column of `max_len` bytes. A text that is too
/// long must have a character boundary where it is cut.
pub fn truncate(text: &str, max_len: usize) -> (cut: String)
    requires
        can_be_truncated(text@, max_len as int),
    ensures
        cut@ == truncated(text@, max_len as int),
{
    proof {
        vstd::utf8::encode_utf8_valid_utf8(text@);
    }
    if text.as_bytes().len() <= max_len {
        text.to_owned()
    } else {
        let (head, _) = text.split_at(max_len.saturating_sub(3));
        proof {
            vstd::utf8::encode_utf8_decode_utf8(head@);
        }
        head.to_owned().concat("...")
    }
}

/// Whether a text can be cut down for a column of `max_len` bytes: it
/// fits, or the place of the cut lies between two characters.
pub open spec fn can_be_truncated(text: Seq<char>, max_len: int) -> bool {
    encode_utf8(text).len() <= max_len || is_char_boundary(
        encode_utf8(text),
        kept_bytes(max_len),
    )
}

/// Cuts `text` down for a column of `max_len` bytes, or says that the cut
/// would fall inside a character.
pub fn try_truncate(text: &str, max_len: usize) -> (cut: Option<String>)
    ensures
        cut is Some <==> can_be_truncated(text@, max_len as int),
        cut matches Some(kept) ==> kept@ == truncated(text@, max_len as int),
{
    if text.as_bytes().len() <= max_len || text.is_char_boundary(max_len.saturating_sub(3)) {
        Some(truncate(text, max_len))
    } else {
        None
    }
}

/// The unit in which a size in bytes is shown.
#[derive(Debug, Clone, Copy, PartialEq, Eq, Structural)]
pub enum ByteUnit {
    Bytes,
    Kilobytes,
    Megabytes,
    Gigabytes,
}

impl ByteUnit {
    /// The number of bytes in one unit.
    pub open spec fn bytes(self) -> nat {
        match self {
            ByteUnit::Bytes => 1,
            ByteUnit::Kilobytes => 1024,
            ByteUnit::Megabytes => 1024 * 1024,
            ByteUnit::Gigabytes => 1024 * 1024 * 1024,
        }
    }

    /// The largest unit that `size` reaches.
    pub open spec fn of(size: nat) -> ByteUnit {
        if size >= ByteUnit::Gigabytes.bytes() {
            ByteUnit::Gigabytes
        } else if size >= ByteUnit::Megabytes.bytes() {
            ByteUnit::Megabytes
        } else if size >= ByteUnit::Kilobytes.bytes() {
            ByteUnit::Kilobytes
        } else {
            ByteUnit::Bytes
        }
    }

    /// The unit's abbreviation.
    pub open spec fn label(self) -> Seq<char> {
        match self {
            ByteUnit::Bytes => "B"@,
            ByteUnit::Kilobytes => "KB"@,
            ByteUnit::Megabytes => "MB"@,
            ByteUnit::Gigabytes => "GB"@,
        }
    }

    /// The largest unit that `size` reaches.
    pub fn for_size(size: u64) -> (unit: ByteUnit)
        ensures
            unit == ByteUnit::of(size as nat),
            unit.bytes() <= size || unit == ByteUnit::Bytes,
    {
        if size >= 1024 * 1024 * 1024 {
            ByteUnit::Gigabytes
        } else if size >= 1024 * 1024 {
            ByteUnit::Megabytes
        } else if size >= 1024 {
            ByteUnit::Kilobytes
        } else {
            ByteUnit::Bytes
        }
    }

    /// The number of bytes in one unit.
    pub fn size(&self) -> (bytes: u64)
        ensures
            bytes == self.bytes(),
    {
        match self {
            ByteUnit::Bytes => 1,
            ByteUnit::Kilobytes => 1024,
            ByteUnit::Megabytes => 1024 * 1024,
            ByteUnit::Gigabytes => 1024 * 1024 * 1024,
        }
    }

    /// The unit's abbreviation.
    pub fn as_str(&self) -> (name: &'static str)
        ensures
            name@ == self.label(),
    {
        match self {
            ByteUnit::Bytes => "B",
            ByteUnit::Kilobytes => "KB",
            ByteUnit::Megabytes => "MB",
            ByteUnit::Gigabytes => "GB",
        }
    }
}

/// The name of an instance state.
pub open spec fn status_label(status: InstanceStatus) -> Seq<char> {
    match status {
        InstanceStatus::Pending => "Pending"@,
        InstanceStatus::Running => "Running"@,
        InstanceStatus::Suspended => "Suspended"@,
        InstanceStatus::Completed => "Completed"@,
        InstanceStatus::Failed => "Failed"@,
        InstanceStatus::Cancelled => "Cancelled"@,
        InstanceStatus::Unknown => "Unknown"@,
    }
}

/// The colour in which an instance state is shown.
pub open spec fn status_color(status: InstanceStatus) -> Color {
    match status {
        InstanceStatus::Pending => Color::Yellow,
        InstanceStatus::Running => Color::Blue,
        InstanceStatus::Suspended => Color::Magenta,
        InstanceStatus::Completed => Color::Green,
        InstanceStatus::Failed => Color::Red,
        InstanceStatus::Cancelled => Color::Gray,
        InstanceStatus::Unknown => Color::DarkGray,
    }
}

/// The name of an instance state and the colour in which it is shown.
pub fn status_style(status: InstanceStatus) -> (style: (&'static str, Color))
    ensures
        style.0@ == status_label(status),
        style.1 == status_color(status),
{
    match status {
        InstanceStatus::Pending => ("Pending", Color::Yellow),
        InstanceStatus::Running => ("Running", Color::Blue),
        InstanceStatus::Suspended => ("Suspended", Color::Magenta),
        InstanceStatus::Completed => ("Completed", Color::Green),
        InstanceStatus::Failed => ("Failed", Color::Red),
        InstanceStatus::Cancelled => ("Cancelled", Color::Gray),
        InstanceStatus::Unknown => ("Unknown", Color::DarkGray),
    }
}

/// The name of a bucket width.
pub open spec fn granularity_label(granularity: MetricsGranularity) -> Seq<char> {
    match granularity {
        MetricsGranularity::Hourly => "Hourly"@,
        MetricsGranularity::Daily => "Daily"@,
    }
}

/// The name of a bucket width.
pub fn granularity_name(granularity: MetricsGranularity) -> (name: &'static str)
    ensures
        name@ == granularity_label(granularity),
{
    match granularity {
        MetricsGranularity::Hourly => "Hourly",
        MetricsGranularity::Daily => "Daily",
    }
}

/// The keys that the footer lists for a frame, and at the base for a tab.
pub open spec fn help_line(mode: ViewMode, tab: Tab) -> Seq<char> {
    match mode {
        ViewMode::List => match tab {
            Tab::Instances =>
                "q:Quit | Tab:Switch Tab | 1-4:Tab | j/k:Navigate | Enter:Details | f:Filter | r:Refresh"@,
            Tab::Images => "q:Quit | Tab:Switch Tab | 1-4:Tab | j/k:Navigate | r:Refresh"@,
            Tab::Metrics =>
                "q:Quit | Tab:Switch Tab | 1-4:Tab | j/k:Navigate | g:Granularity | r:Refresh"@,
            Tab::Health => "q:Quit | Tab:Switch Tab | 1-4:Tab | r:Refresh"@,
        },
        ViewMode::InstanceDetail => "Esc:Back | c:Checkpoints | j/k:Scroll"@,
        ViewMode::CheckpointsList => "Esc:Back | Enter:View Data | j/k:Navigate"@,
        ViewMode::CheckpointDetail => "Esc:Back | j/k:Scroll"@,
    }
}

/// The keys that the footer lists for a frame, and at the base for a tab.
pub fn help_text(mode: ViewMode, tab: Tab) -> (text: &'static str)
    ensures
        text@ == help_line(mode, tab),
{
    match mode {
        ViewMode::List => match tab {
            Tab::Instances =>
                "q:Quit | Tab:Switch Tab | 1-4:Tab | j/k:Navigate | Enter:Details | f:Filter | r:Refresh",
            Tab::Images => "q:Quit | Tab:Switch Tab | 1-4:Tab | j/k:Navigate | r:Refresh",
            Tab::Metrics =>
                "q:Quit | Tab:Switch Tab | 1-4:Tab | j/k:Navigate | g:Granularity | r:Refresh",
            Tab::Health => "q:Quit | Tab:Switch Tab | 1-4:Tab | r:Refresh",
        },
        ViewMode::InstanceDetail => "Esc:Back | c:Checkpoints | j/k:Scroll",
        ViewMode::CheckpointsList => "Esc:Back | Enter:View Data | j/k:Navigate",
        ViewMode::CheckpointDetail => "Esc:Back | j/k:Scroll",
    }
}

} // verus!
