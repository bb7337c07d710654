use vstd::prelude::*;

use crate::error::{ApiError, MappingError, NoteField, StoreError};
use crate::ids::{generate_note_id, is_note_id};
use crate::model::{NewNote, NoteModel, NoteModelResponse, NoteUpdate};
use crate::schema::{CreateNoteSchema, UpdateNoteSchema};

verus! {

/// The wire shape of a stored record, or the first required field it lacks.
pub open spec fn spec_map_record(n: NoteModel) -> Result<NoteModelResponse, MappingError> {
    if n.category is None {
        Err(MappingError::MissingCategory)
    } else if n.created_at is None {
        Err(MappingError::MissingCreatedAt)
    } else if n.updated_at is None {
        Err(MappingError::MissingUpdatedAt)
    } else {
        Ok(
            NoteModelResponse {
                id: n.id,
                title: n.title,
                content: n.content,
                category: n.category->Some_0,
                published: n.published != 0,
                created_at: n.created_at->Some_0,
                updated_at: n.updated_at->Some_0,
            },
        )
    }
}

/// The outcome of a single-note lookup: its wire shape, not-found for a
/// missing row, and a server error for any other failure.
pub open spec fn spec_fetched(id: String, reply: Result<NoteModel, StoreError>) -> Result<
    NoteModelResponse,
    ApiError,
> {
    match reply {
        Ok(n) => match spec_map_record(n) {
            Ok(w) => Ok(w),
            Err(m) => Err(ApiError::Mapping(m)),
        },
        Err(StoreError::RowNotFound) => Err(ApiError::NotFound(id)),
        Err(e) => Err(ApiError::Store(e)),
    }
}

/// The outcome of reading back a note just created: its wire shape; a
/// missing row (deleted between the insert and the read) or any other
/// failure is a server-side error, since the insert itself succeeded.
pub open spec fn spec_created(reply: Result<NoteModel, StoreError>) -> Result<
    NoteModelResponse,
    ApiError,
> {
    match reply {
        Ok(n) => match spec_map_record(n) {
            Ok(w) => Ok(w),
            Err(m) => Err(ApiError::Mapping(m)),
        },
        Err(e) => Err(ApiError::Store(e)),
    }
}

/// Title and content must both be non-empty; the title is checked first.
pub open spec fn spec_text_check(title: Seq<char>, content: Seq<char>) -> Result<(), ApiError> {
    if title.len() == 0 {
        Err(ApiError::EmptyField(NoteField::Title))
    } else if content.len() == 0 {
        Err(ApiError::EmptyField(NoteField::Content))
    } else {
        Ok(())
    }
}

/// The outcome of the insert of a create request.
pub open spec fn spec_insert(reply: Result<u64, StoreError>) -> Result<(), ApiError> {
    match reply {
        Ok(_) => Ok(()),
        Err(StoreError::UniqueViolation) => Err(ApiError::Conflict),
        Err(e) => Err(ApiError::Store(e)),
    }
}

/// The first step of an update: the record to write, or the response.
pub open spec fn spec_update_plan(
    id: String,
    body: UpdateNoteSchema,
    existing: Result<NoteModel, StoreError>,
) -> Result<NoteUpdate, ApiError> {
    match existing {
        Ok(n) => Ok(spec_merge(id, n, body)),
        Err(StoreError::RowNotFound) => Err(ApiError::NotFound(id)),
        Err(e) => Err(ApiError::Store(e)),
    }
}

/// The record an update writes: the payload's value for each field it
/// carries, the stored value for each optional field it leaves out.
pub open spec fn spec_merge(id: String, existing: NoteModel, body: UpdateNoteSchema) -> NoteUpdate {
    NoteUpdate {
        id: id,
        title: body.title,
        content: body.content,
        category: match body.category {
            Some(c) => Some(c),
            None => existing.category,
        },
        published: match body.published {
            Some(p) => p,
            None => existing.published != 0,
        },
    }
}

/// The outcome of a write reported by its affected-row count: none affected
/// means the id named no note.
pub open spec fn spec_affected(id: String, reply: Result<u64, StoreError>) -> Result<(), ApiError> {
    match reply {
        Ok(n) => if n == 0 { Err(ApiError::NotFound(id)) } else { Ok(()) },
        Err(StoreError::RowNotFound) => Err(ApiError::NotFound(id)),
        Err(e) => Err(ApiError::Store(e)),
    }
}

fn copy_text(s: &Option<String>) -> (r: Option<String>)
    ensures
        r == *s,
{
    match s {
        Some(t) => Some(t.clone()),
        None => None,
    }
}

/// Maps a stored record to its wire shape. A record without category or
/// timestamps breaks the record invariant and is reported, never filled in.
pub fn filter_db_record(note: &NoteModel) -> (r: Result<NoteModelResponse, MappingError>)
    ensures
        r == spec_map_record(*note),
{
    let category = match &note.category {
        Some(c) => c.clone(),
        None => return Err(MappingError::MissingCategory),
    };
    let created_at = match &note.created_at {
        Some(t) => t.clone(),
        None => return Err(MappingError::MissingCreatedAt),
    };
    let updated_at = match &note.updated_at {
        Some(t) => t.clone(),
        None => return Err(MappingError::MissingUpdatedAt),
    };
    Ok(
        NoteModelResponse {
            id: note.id.clone(),
            title: note.title.clone(),
            content: note.content.clone(),
            category,
            published: note.published != 0,
            created_at,
            updated_at,
        },
    )
}

/// The list endpoint's outcome from the store's rows: every row in its wire
/// shape, in the store's order, or the first invariant violation found.
pub fn list_outcome(reply: Result<Vec<NoteModel>, StoreError>) -> (r: Result<
    Vec<NoteModelResponse>,
    ApiError,
>)
    ensures
        match reply {
            Err(e) => r == Err::<Vec<NoteModelResponse>, ApiError>(ApiError::Store(e)),
            Ok(rows) => {
                &&& r is Ok <==> forall|i: int|
                    0 <= i < rows@.len() ==> (#[trigger] spec_map_record(rows@[i])) is Ok
                &&& r is Ok ==> {
                    &&& r->Ok_0@.len() == rows@.len()
                    &&& forall|i: int|
                        0 <= i < rows@.len() ==> Ok::<NoteModelResponse, MappingError>(
                            #[trigger] r->Ok_0@[i],
                        ) == spec_map_record(rows@[i])
                }
                &&& r is Err ==> exists|i: int|
                    0 <= i < rows@.len() && Err::<NoteModelResponse, MappingError>(
                        r->Err_0->Mapping_0,
                    ) == #[trigger] spec_map_record(rows@[i]) && r->Err_0 is Mapping && (forall|
                        j: int,
                    | 0 <= j < i ==> (#[trigger] spec_map_record(rows@[j])) is Ok)
            },
        },
{
    let ghost given = reply;
    let rows = match reply {
        Ok(rows) => rows,
        Err(e) => return Err(ApiError::Store(e)),
    };
    let mut notes: Vec<NoteModelResponse> = Vec::new();
    let mut i: usize = 0;
    while i < rows.len()
        invariant
            given == reply,
            given == Ok::<Vec<NoteModel>, StoreError>(rows),
            i <= rows@.len(),
            notes@.len() == i,
            forall|j: int|
                #![trigger notes@[j]]
                #![trigger spec_map_record(rows@[j])]
                0 <= j < i ==> Ok::<NoteModelResponse, MappingError>(notes@[j])
                    == spec_map_record(rows@[j]),
        decreases rows@.len() - i,
    {
        match filter_db_record(&rows[i]) {
            Ok(w) => notes.push(w),
            Err(m) => {
                assert(Err::<NoteModelResponse, MappingError>(m) == spec_map_record(
                    rows@[i as int],
                ));
                return Err(ApiError::Mapping(m));
            },
        }
        i = i + 1;
    }
    Ok(notes)
}

/// The outcome of fetching one note by id: used by the get endpoint and for
/// the refetch after an update. A refetch can find the row gone when a
/// delete ran in between; that is reported as not-found.
pub fn fetched_note_outcome(id: String, reply: Result<NoteModel, StoreError>) -> (r: Result<
    NoteModelResponse,
    ApiError,
>)
    ensures
        r == spec_fetched(id, reply),
{
    match reply {
        Ok(n) => match filter_db_record(&n) {
            Ok(w) => Ok(w),
            Err(m) => Err(ApiError::Mapping(m)),
        },
        Err(StoreError::RowNotFound) => Err(ApiError::NotFound(id)),
        Err(e) => Err(ApiError::Store(e)),
    }
}

/// Rejects an empty title or content before any store round trip.
pub fn validate_note_text(title: &String, content: &String) -> (r: Result<(), ApiError>)
    ensures
        r == spec_text_check(title@, content@),
{
    if title.as_str().is_empty() {
        Err(ApiError::EmptyField(NoteField::Title))
    } else if content.as_str().is_empty() {
        Err(ApiError::EmptyField(NoteField::Content))
    } else {
        Ok(())
    }
}

/// The row to insert for a create request, under a freshly generated id.
/// An absent category is stored as the empty string and an absent
/// `published` as false; the store sets both timestamps.
pub fn create_note_row(body: &CreateNoteSchema) -> (r: Result<NewNote, ApiError>)
    ensures
        spec_text_check(body.title@, body.content@) is Err ==> (r matches Err(e) && e
            == spec_text_check(body.title@, body.content@)->Err_0),
        spec_text_check(body.title@, body.content@) is Ok ==> (r matches Ok(row) && {
            &&& is_note_id(row.id@)
            &&& row.title == body.title
            &&& row.content == body.content
            &&& row.category@ == match body.category {
                Some(c) => c@,
                None => Seq::<char>::empty(),
            }
            &&& row.published == match body.published {
                Some(p) => p,
                None => false,
            }
        }),
{
    if let Err(e) = validate_note_text(&body.title, &body.content) {
        return Err(e);
    }
    let id = generate_note_id();
    let category = match &body.category {
        Some(c) => c.clone(),
        None => String::new(),
    };
    let published = match body.published {
        Some(p) => p,
        None => false,
    };
    Ok(NewNote { id, title: body.title.clone(), content: body.content.clone(), category, published })
}

/// The outcome of reading back the note a create request inserted.
pub fn created_note_outcome(reply: Result<NoteModel, StoreError>) -> (r: Result<
    NoteModelResponse,
    ApiError,
>)
    ensures
        r == spec_created(reply),
{
    match reply {
        Ok(n) => match filter_db_record(&n) {
            Ok(w) => Ok(w),
            Err(m) => Err(ApiError::Mapping(m)),
        },
        Err(e) => Err(ApiError::Store(e)),
    }
}

/// The outcome of the insert of a create request: a uniqueness violation is
/// a conflict, any other store failure a server error.
pub fn insert_outcome(reply: Result<u64, StoreError>) -> (r: Result<(), ApiError>)
    ensures
        r == spec_insert(reply),
{
    match reply {
        Ok(_) => Ok(()),
        Err(StoreError::UniqueViolation) => Err(ApiError::Conflict),
        Err(e) => Err(ApiError::Store(e)),
    }
}

/// Merges a sparse update payload into the stored note, giving the concrete
/// values to write.
pub fn merge_update(id: String, existing: &NoteModel, body: &UpdateNoteSchema) -> (r: NoteUpdate)
    ensures
        r == spec_merge(id, *existing, *body),
{
    let category = match &body.category {
        Some(c) => Some(c.clone()),
        None => copy_text(&existing.category),
    };
    let published = match body.published {
        Some(p) => p,
        None => existing.published != 0,
    };
    NoteUpdate {
        id,
        title: body.title.clone(),
        content: body.content.clone(),
        category,
        published,
    }
}

/// The first step of an update: from the lookup of the stored note, either
/// the merged record to write or the response to give.
pub fn update_plan(id: String, body: &UpdateNoteSchema, existing: Result<NoteModel, StoreError>) -> (r:
    Result<NoteUpdate, ApiError>)
    ensures
        r == spec_update_plan(id, *body, existing),
{
    match existing {
        Ok(n) => Ok(merge_update(id, &n, body)),
        Err(StoreError::RowNotFound) => Err(ApiError::NotFound(id)),
        Err(e) => Err(ApiError::Store(e)),
    }
}

/// The outcome of an update or delete statement from its affected-row
/// count: zero rows means the id named no note (for an update, the row may
/// have been deleted since it was read).
pub fn affected_outcome(id: String, reply: Result<u64, StoreError>) -> (r: Result<(), ApiError>)
    ensures
        r == spec_affected(id, reply),
{
    match reply {
        Ok(n) => if n == 0 {
            Err(ApiError::NotFound(id))
        } else {
            Ok(())
        },
        Err(StoreError::RowNotFound) => Err(ApiError::NotFound(id)),
        Err(e) => Err(ApiError::Store(e)),
    }
}

} // verus!
