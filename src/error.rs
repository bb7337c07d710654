use vstd::prelude::*;

verus! {

/// What the store reported when a round trip failed.
#[derive(Clone, Debug, PartialEq, Eq)]
pub enum StoreError {
    /// No row matched the query.
    RowNotFound,
    /// A uniqueness constraint rejected the write.
    UniqueViolation,
    /// Anything else, with the store's description.
    Other(String),
}

/// A required field that a stored record lacked.
#[derive(PartialEq, Eq, Structural, Clone, Copy, Debug)]
pub enum MappingError {
    MissingCategory,
    MissingCreatedAt,
    MissingUpdatedAt,
}

/// A text field of a note that must not be empty.
#[derive(PartialEq, Eq, Structural, Clone, Copy, Debug)]
pub enum NoteField {
    Title,
    Content,
}

/// The outcome of a request that did not succeed.
#[derive(Clone, Debug, PartialEq, Eq)]
pub enum ApiError {
    /// Malformed input, such as an id of the wrong shape.
    Validation(String),
    /// A required text field was empty.
    EmptyField(NoteField),
    /// The identifier is already taken.
    Conflict,
    /// No note has this id.
    NotFound(String),
    /// The store failed.
    Store(StoreError),
    /// A stored record broke the record invariant.
    Mapping(MappingError),
}

impl ApiError {
    pub open spec fn spec_status_code(&self) -> u16 {
        match self {
            ApiError::Validation(_) => 400,
            ApiError::EmptyField(_) => 400,
            ApiError::Conflict => 400,
            ApiError::NotFound(_) => 404,
            ApiError::Store(_) => 500,
            ApiError::Mapping(_) => 500,
        }
    }

    /// The HTTP status of the error response.
    pub fn status_code(&self) -> (r: u16)
        ensures
            r == self.spec_status_code(),
    {
        match self {
            ApiError::Validation(_) => 400,
            ApiError::EmptyField(_) => 400,
            ApiError::Conflict => 400,
            ApiError::NotFound(_) => 404,
            ApiError::Store(_) => 500,
            ApiError::Mapping(_) => 500,
        }
    }

    /// Whether the client can correct the condition (`"fail"`) rather than
    /// the server being at fault (`"error"`).
    pub fn is_client_error(&self) -> (r: bool)
        ensures
            r == (self.spec_status_code() < 500),
    {
        match self {
            ApiError::Validation(_) | ApiError::EmptyField(_) | ApiError::Conflict | ApiError::NotFound(_) => true,
            ApiError::Store(_) | ApiError::Mapping(_) => false,
        }
    }

    /// The envelope's `status` word: `"fail"` for a client-correctable
    /// condition, `"error"` for a server-side one.
    pub fn status_word(&self) -> (r: &'static str)
        ensures
            self.spec_status_code() < 500 ==> r@ == "fail"@,
            self.spec_status_code() >= 500 ==> r@ == "error"@,
    {
        if self.is_client_error() {
            "fail"
        } else {
            "error"
        }
    }
}

} // verus!
