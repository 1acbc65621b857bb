//! Log entries as read from the log table, and the events made of them.

use vstd::prelude::*;
use vstd::string::*;
use crate::image::{Field, ImageView, fields_view, image_or_empty, image_from_text};
use crate::diff::{FieldChange, changes_view, diff_of_texts, compute_diff};
use crate::text::same_text;

verus! {

/// One row of the log table.
pub struct LogEntry {
    pub id: i64,
    pub table_name: String,
    pub action: String,
    pub row_id: Option<i64>,
    pub new_data: Option<String>,
    pub old_data: Option<String>,
    pub timestamp: String,
}

/// What an event carries besides its header.
pub enum Payload {
    /// The images of the row after and before the change, where the entry has them.
    Images { new_image: Option<Vec<Field>>, old_image: Option<Vec<Field>> },
    /// The fields that an update changed.
    Changes { changed_fields: Vec<FieldChange> },
}

/// The event emitted for one log entry.
pub struct ChangeEvent {
    pub id: i64,
    pub table: String,
    pub action: String,
    pub row_id: Option<i64>,
    pub timestamp: String,
    pub payload: Payload,
}

/// An update entry that holds both images: its event carries a diff.
pub open spec fn carries_diff(e: LogEntry) -> bool {
    e.action@ == "update"@ && e.new_data is Some && e.old_data is Some
}

/// The image stored in a log column, an unparsable one counting as empty.
pub open spec fn stored_image(data: Option<String>) -> Option<ImageView> {
    match data {
        Some(t) => Some(image_or_empty(t@)),
        None => None,
    }
}

/// The image an event carries, if any.
pub open spec fn carried_image(img: Option<Vec<Field>>) -> Option<ImageView> {
    match img {
        Some(v) => Some(fields_view(v@)),
        None => None,
    }
}

/// `ev` is the event of the log entry `e`.
pub open spec fn describes(ev: ChangeEvent, e: LogEntry) -> bool {
    &&& ev.id == e.id
    &&& ev.table@ == e.table_name@
    &&& ev.action@ == e.action@
    &&& ev.row_id == e.row_id
    &&& ev.timestamp@ == e.timestamp@
    &&& match ev.payload {
        Payload::Changes { changed_fields } => {
            &&& carries_diff(e)
            &&& changes_view(changed_fields@) == diff_of_texts(
                e.new_data.unwrap()@,
                e.old_data.unwrap()@,
            )
        },
        Payload::Images { new_image, old_image } => {
            &&& !carries_diff(e)
            &&& carried_image(new_image) == stored_image(e.new_data)
            &&& carried_image(old_image) == stored_image(e.old_data)
        },
    }
}

fn image_of_column(data: &Option<String>) -> (r: Option<Vec<Field>>)
    ensures
        carried_image(r) == stored_image(*data),
{
    match data {
        Some(t) => Some(image_from_text(t.as_str())),
        None => None,
    }
}

/// Makes the event of one log entry: an update with both images carries
/// the changed fields, any other entry its images.
pub fn build_event(entry: &LogEntry) -> (r: ChangeEvent)
    ensures
        describes(r, *entry),
{
    let payload = match (&entry.new_data, &entry.old_data) {
        (Some(n), Some(o)) => {
            if same_text(entry.action.as_str(), "update") {
                Payload::Changes { changed_fields: compute_diff(n.as_str(), o.as_str()) }
            } else {
                Payload::Images {
                    new_image: image_of_column(&entry.new_data),
                    old_image: image_of_column(&entry.old_data),
                }
            }
        },
        _ => Payload::Images {
            new_image: image_of_column(&entry.new_data),
            old_image: image_of_column(&entry.old_data),
        },
    };
    ChangeEvent {
        id: entry.id,
        table: entry.table_name.clone(),
        action: entry.action.clone(),
        row_id: entry.row_id,
        timestamp: entry.timestamp.clone(),
        payload,
    }
}

} // verus!
