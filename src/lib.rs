//! A note-management backend core: pagination, partial-update merging,
//! record-to-wire mapping and the per-endpoint decisions that turn store
//! replies into responses.

mod error;
mod handler;
mod ids;
mod model;
mod pagination;
mod schema;
mod store;

pub use error::{ApiError, MappingError, NoteField, StoreError};
pub use handler::{
    affected_outcome, create_note_row, created_note_outcome, fetched_note_outcome,
    filter_db_record, insert_outcome, list_outcome, merge_update, spec_affected, spec_created,
    spec_fetched, spec_insert, spec_map_record, spec_merge, spec_text_check, spec_update_plan,
    update_plan, validate_note_text,
};
pub use ids::{
    generate_note_id, is_note_id, is_random_id, note_id_outcome, parse_note_id, uuid_text,
};
pub use model::{NewNote, NoteModel, NoteModelResponse, NoteUpdate};
pub use pagination::{
    effective_limit, effective_page, resolve_pagination, spec_offset, Pagination, DEFAULT_LIMIT,
    DEFAULT_PAGE,
};
pub use store::{
    inserted_row, lemma_create_then_get, lemma_delete_twice, lemma_missing_category_is_internal,
    lemma_missing_id_not_found, lemma_update_keeps_unsent_fields, row_complete, store_delete,
    store_get, store_insert, store_update, updated_row, NoteTable,
};
pub use schema::{CreateNoteSchema, FilterOptions, ParamOptions, UpdateNoteSchema};
