//! Row-level change capture for SQLite databases.
//!
//! The library holds the logic of the capture pipeline: which names may be
//! instrumented, the SQL text of the log table and of the per-table
//! triggers, which catalog entries are user tables and which triggers belong
//! to the capture, the field-level diff of two row images, and the step of
//! the change emitter that turns log entries into events.
//! Running statements against a database and printing events is left to the
//! caller.

mod ident;
mod text;
mod sql;
mod catalog;
mod image;
mod diff;
mod event;
mod emitter;

pub use ident::{is_valid_identifier, valid_identifier};
pub use text::{has_prefix, same_text, starts_with};
pub use sql::{
    Action, InstrumentationError, TriggerSet, action_word, create_trigger_sql, create_triggers_for_table,
    drop_log_table_statement, drop_trigger_statement, image_expression, lemma_install_guarded,
    log_table_statement, trigger_name, trigger_name_of,
};
pub use catalog::{
    cleanup, cleanup_sql, get_user_tables, is_capture_trigger, is_capture_trigger_name,
    is_user_table, is_user_table_name, lemma_cleanup_drops_installed, lemma_drops_capture,
    lemma_installed_trigger_is_capture, lemma_trigger_names_distinct,
};
pub use image::{Field, image_from_text, parse_image, parsed_image};
pub use diff::{FieldChange, compute_diff, diff_images, diff_of, find_field, lemma_malformed_image_is_empty};
pub use event::{ChangeEvent, LogEntry, Payload, build_event, describes};
pub use emitter::{
    Emitter, admitted, cursor_after, lemma_admitted_bounds, lemma_cursor_monotonic,
    lemma_faithful_read_emits_all,
};
