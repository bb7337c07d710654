//! What the store does with each statement the handlers issue, as a model
//! over the notes it holds, and the end-to-end behaviour that follows.
use vstd::prelude::*;

use crate::error::{ApiError, MappingError, StoreError};
use crate::handler::{
    spec_affected, spec_created, spec_fetched, spec_insert, spec_merge, spec_update_plan,
};
use crate::model::{NewNote, NoteModel, NoteModelResponse, NoteUpdate};
use crate::schema::UpdateNoteSchema;

verus! {

/// The notes a store holds, each under the text of its id.
pub type NoteTable = Map<Seq<char>, NoteModel>;

/// The row the store keeps for an insert made at time `now`: both
/// timestamps set to `now`.
pub open spec fn inserted_row(row: NewNote, now: String) -> NoteModel {
    NoteModel {
        id: row.id,
        title: row.title,
        content: row.content,
        category: Some(row.category),
        published: if row.published { 1 } else { 0 },
        created_at: Some(now),
        updated_at: Some(now),
    }
}

/// An insert: rejected when the id is taken, else one row added.
pub open spec fn store_insert(t: NoteTable, row: NewNote, now: String) -> (NoteTable, Result<
    u64,
    StoreError,
>) {
    if t.contains_key(row.id@) {
        (t, Err(StoreError::UniqueViolation))
    } else {
        (t.insert(row.id@, inserted_row(row, now)), Ok(1))
    }
}

/// A lookup by id.
pub open spec fn store_get(t: NoteTable, id: String) -> Result<NoteModel, StoreError> {
    if t.contains_key(id@) {
        Ok(t[id@])
    } else {
        Err(StoreError::RowNotFound)
    }
}

/// The row an update made at time `now` leaves: the written columns, the
/// creation time kept, the update time set to `now`.
pub open spec fn updated_row(old_row: NoteModel, u: NoteUpdate, now: String) -> NoteModel {
    NoteModel {
        id: old_row.id,
        title: u.title,
        content: u.content,
        category: u.category,
        published: if u.published { 1 } else { 0 },
        created_at: old_row.created_at,
        updated_at: Some(now),
    }
}

/// An update: the count of rows it changed, zero when the id is unknown.
pub open spec fn store_update(t: NoteTable, u: NoteUpdate, now: String) -> (NoteTable, Result<
    u64,
    StoreError,
>) {
    if t.contains_key(u.id@) {
        (t.insert(u.id@, updated_row(t[u.id@], u, now)), Ok(1))
    } else {
        (t, Ok(0))
    }
}

/// A delete: the count of rows it removed, zero when the id is unknown.
pub open spec fn store_delete(t: NoteTable, id: String) -> (NoteTable, Result<u64, StoreError>) {
    if t.contains_key(id@) {
        (t.remove(id@), Ok(1))
    } else {
        (t, Ok(0))
    }
}

/// A note created under an unused id is then found under that id, both by
/// the create request's own read-back and by a later lookup, with the
/// values it was created with and with equal creation and update times.
pub proof fn lemma_create_then_get(t: NoteTable, row: NewNote, now: String)
    requires
        !t.contains_key(row.id@),
    ensures
        ({
            let (t2, reply) = store_insert(t, row, now);
            let note = NoteModelResponse {
                id: row.id,
                title: row.title,
                content: row.content,
                category: row.category,
                published: row.published,
                created_at: now,
                updated_at: now,
            };
            &&& spec_insert(reply) is Ok
            &&& spec_created(store_get(t2, row.id)) == Ok::<NoteModelResponse, ApiError>(note)
            &&& spec_fetched(row.id, store_get(t2, row.id)) == Ok::<NoteModelResponse, ApiError>(
                note,
            )
        }),
{
    let (t2, reply) = store_insert(t, row, now);
    assert(t2.contains_key(row.id@));
    assert(t2[row.id@] == inserted_row(row, now));
}

/// A stored note holds every field its wire shape requires, as every note
/// does from its creation on.
pub open spec fn row_complete(n: NoteModel) -> bool {
    &&& n.category is Some
    &&& n.created_at is Some
    &&& n.updated_at is Some
}

/// An update whose payload leaves out `published` keeps the stored value,
/// and one that leaves out `category` keeps the stored category: the store
/// holds them afterwards and the note read back shows them.
pub proof fn lemma_update_keeps_unsent_fields(
    t: NoteTable,
    id: String,
    body: UpdateNoteSchema,
    now: String,
)
    requires
        t.contains_key(id@),
        row_complete(t[id@]),
        body.published is None,
    ensures
        ({
            let existing = t[id@];
            let u = spec_merge(id, existing, body);
            let (t2, reply) = store_update(t, u, now);
            let read = spec_fetched(id, store_get(t2, id));
            &&& spec_update_plan(id, body, store_get(t, id)) == Ok::<NoteUpdate, ApiError>(u)
            &&& spec_affected(id, reply) is Ok
            &&& (t2[id@].published != 0) == (existing.published != 0)
            &&& read is Ok
            &&& read->Ok_0.published == (existing.published != 0)
            &&& read->Ok_0.category == match body.category {
                Some(c) => c,
                None => existing.category->Some_0,
            }
            &&& read->Ok_0.title == body.title
            &&& read->Ok_0.content == body.content
        }),
{
    let existing = t[id@];
    let u = spec_merge(id, existing, body);
    let (t2, reply) = store_update(t, u, now);
    assert(t2[id@] == updated_row(existing, u, now));
}

/// An update or a delete of an id that names no note ends in not-found,
/// never in a store error.
pub proof fn lemma_missing_id_not_found(
    t: NoteTable,
    id: String,
    body: UpdateNoteSchema,
    u: NoteUpdate,
    now: String,
)
    requires
        !t.contains_key(id@),
        u.id == id,
    ensures
        spec_update_plan(id, body, store_get(t, id)) == Err::<NoteUpdate, ApiError>(
            ApiError::NotFound(id),
        ),
        spec_affected(id, store_update(t, u, now).1) == Err::<(), ApiError>(ApiError::NotFound(id)),
        spec_affected(id, store_delete(t, id).1) == Err::<(), ApiError>(ApiError::NotFound(id)),
        ApiError::NotFound(id).spec_status_code() == 404,
{
}

/// Deleting a stored note succeeds once (no content); deleting it again
/// reports not-found.
pub proof fn lemma_delete_twice(t: NoteTable, id: String)
    requires
        t.contains_key(id@),
    ensures
        ({
            let (t1, first) = store_delete(t, id);
            let (t2, second) = store_delete(t1, id);
            &&& spec_affected(id, first) is Ok
            &&& spec_affected(id, second) == Err::<(), ApiError>(ApiError::NotFound(id))
            &&& !t2.contains_key(id@)
        }),
{
}

/// A stored record without a category yields a server-side error, not a
/// note with a filled-in category.
pub proof fn lemma_missing_category_is_internal(id: String, n: NoteModel)
    requires
        n.category is None,
    ensures
        spec_fetched(id, Ok(n)) == Err::<NoteModelResponse, ApiError>(
            ApiError::Mapping(MappingError::MissingCategory),
        ),
        ApiError::Mapping(MappingError::MissingCategory).spec_status_code() == 500,
{
}

} // verus!
