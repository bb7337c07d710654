use vstd::prelude::*;

verus! {

/// Query parameters of the list endpoint.
#[derive(Clone, Debug, PartialEq, Eq)]
pub struct FilterOptions {
    pub page: Option<i64>,
    pub limit: Option<i64>,
}

/// A path holding a note id.
#[derive(Clone, Debug, PartialEq, Eq)]
pub struct ParamOptions {
    pub id: String,
}

/// Body of a create request.
#[derive(Clone, Debug, PartialEq, Eq)]
pub struct CreateNoteSchema {
    pub title: String,
    pub content: String,
    pub category: Option<String>,
    pub published: Option<bool>,
}

/// Body of an update request: `title` and `content` are always resent.
#[derive(Clone, Debug, PartialEq, Eq)]
pub struct UpdateNoteSchema {
    pub title: String,
    pub content: String,
    pub category: Option<String>,
    pub published: Option<bool>,
}

} // verus!
