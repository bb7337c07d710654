use vstd::prelude::*;

verus! {

/// A note as the store holds it. Timestamps are the store's own text for
/// them; `published` is the store's small integer.
#[derive(Clone, Debug, PartialEq, Eq)]
pub struct NoteModel {
    pub id: String,
    pub title: String,
    pub content: String,
    pub category: Option<String>,
    pub published: i8,
    pub created_at: Option<String>,
    pub updated_at: Option<String>,
}

/// A note in the shape clients see: every field present, `published` a flag.
#[derive(Clone, Debug, PartialEq, Eq)]
pub struct NoteModelResponse {
    pub id: String,
    pub title: String,
    pub content: String,
    pub category: String,
    pub published: bool,
    pub created_at: String,
    pub updated_at: String,
}

/// The columns written when a note is created; the store sets both
/// timestamps itself.
#[derive(Clone, Debug, PartialEq, Eq)]
pub struct NewNote {
    pub id: String,
    pub title: String,
    pub content: String,
    pub category: String,
    pub published: bool,
}

/// The full column set written by an update: concrete values only.
#[derive(Clone, Debug, PartialEq, Eq)]
pub struct NoteUpdate {
    pub id: String,
    pub title: String,
    pub content: String,
    pub category: Option<String>,
    pub published: bool,
}

} // verus!
