//! A small persistence subsystem: automatic, versioned schema migration for
//! an embedded relational store, and a generic in-memory-indexed cache kept
//! consistent with that store across create/read/update/delete operations —
//! together with the plain widget state the hosting terminal UI keeps per
//! screen element.

use vstd::prelude::*;

mod actions;
mod alert_dialog;
mod create_log_dialog;
mod data_store;
mod database;
mod db_object;
mod descriptor_table;
mod details_window;
mod dialog_interface;
mod engine;
mod errors;
mod existing_logs;
mod input;
mod input_fields;
mod logs;
mod manage_races_dialog;
mod map_api;
mod migrate;
mod races;
mod sql_value;
mod text;
mod ui_element;
mod ui_handler;
mod unique_ids;

pub use actions::{ActionProcessor, Actions};
pub use alert_dialog::{AlertDialog, AlertDialogButton, AlertDialogStyle};
pub use create_log_dialog::{CreateLogDialog, CreateLogDialogState};
pub use data_store::{DataStore, lemma_version_changes, spec_bumped};
pub use database::{Database, denotes_some_row, parse_rows, spec_recorded_version};
pub use db_object::{DBObjectSerializable, DBSchemaObject, DataStoreTrait, NoTransforms,
    SchemaStep, SchemaTransform, StepModel, TransformError};
pub use descriptor_table::TableDescriptor;
pub use details_window::DetailsWindow;
pub use dialog_interface::{DialogHelpers, DialogInterface, Rect};
pub use errors::StoreError;
pub use existing_logs::{CallSearchHit, hit_denotes, hit_from_some_row, parse_hit_rows, search_existing_logs, spec_hit_row_ok};
pub use input::{Input, InputOp};
pub use input_fields::InputFields;
pub use logs::{LogEntry, race_logs, spec_in_race};
pub use manage_races_dialog::ManageRacesDialogState;
pub use map_api::OnlineMapError;
pub use migrate::{MigrationPlan, lemma_migration_idempotent, lemma_schema_version_monotonic,
    plan_migration, spec_plan, spec_steps_to_apply, spec_version_after};
pub use races::Race;
pub use sql_value::{SqlValModel, SqlValue, row_model};
pub use text::{i64_text, spec_digit_char, spec_int_text, spec_nat_text, u64_text};
pub use ui_element::{EventResult, RenderError, RenderResult, TypedUIElement, UIElementType};
pub use ui_handler::UIElementID;
pub use unique_ids::{create_const_hash, spec_const_hash, spec_hash_bytes, spec_hash_step};
