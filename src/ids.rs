use vstd::prelude::*;

use crate::error::ApiError;

verus! {

/// A lowercase hexadecimal digit.
pub open spec fn is_lower_hex(c: char) -> bool {
    ('0' <= c && c <= '9') || ('a' <= c && c <= 'f')
}

/// Where the hyphens of a hyphenated identifier stand.
pub open spec fn is_hyphen_position(i: int) -> bool {
    i == 8 || i == 13 || i == 18 || i == 23
}

/// The shape of a note id: 32 lowercase hex digits in groups of 8-4-4-4-12,
/// joined by hyphens.
pub open spec fn is_note_id(s: Seq<char>) -> bool {
    &&& s.len() == 36
    &&& forall|i: int|
        0 <= i < 36 ==> if is_hyphen_position(i) {
            s[i] == '-'
        } else {
            is_lower_hex(#[trigger] s[i])
        }
}

/// A version-4 identifier: the version digit is `4` and the variant digit
/// one of `8`, `9`, `a`, `b`.
pub open spec fn is_random_id(s: Seq<char>) -> bool {
    &&& is_note_id(s)
    &&& s[14] == '4'
    &&& (s[19] == '8' || s[19] == '9' || s[19] == 'a' || s[19] == 'b')
}

/// The hyphenated lowercase text of the UUID that `uuid::Uuid::parse_str`
/// reads from `s`, or none where it rejects `s`.
pub uninterp spec fn uuid_text(s: Seq<char>) -> Option<Seq<char>>;

/// Relies on `uuid::Uuid::new_v4` for a random identifier and on its
/// `Display`, which writes the hyphenated lowercase form; `new_v4` sets the
/// version and variant bits.
#[verifier::external_body]
fn new_uuid_text() -> (r: String)
    ensures
        is_random_id(r@),
{
    uuid::Uuid::new_v4().to_string()
}

/// Relies on `uuid::Uuid::parse_str`, which accepts the simple, hyphenated,
/// braced and URN forms in either case, and on `Display` of the parsed value.
/// A hyphenated lowercase input reads back as itself.
#[verifier::external_body]
fn parse_uuid_text(s: &str) -> (r: Option<String>)
    ensures
        match r {
            Some(t) => uuid_text(s@) == Some(t@) && is_note_id(t@),
            None => uuid_text(s@) is None,
        },
        is_note_id(s@) ==> r is Some && r->Some_0@ == s@,
{
    uuid::Uuid::parse_str(s).ok().map(|u| u.to_string())
}

/// A fresh identifier for a note being created.
pub fn generate_note_id() -> (r: String)
    ensures
        is_random_id(r@),
{
    new_uuid_text()
}

/// Turns the parser's verdict on a path segment into the id to look up, or
/// a validation error that carries the rejected segment.
pub fn note_id_outcome(raw: &str, parsed: Option<String>) -> (r: Result<String, ApiError>)
    ensures
        match parsed {
            Some(t) => r == Ok::<String, ApiError>(t),
            None => r is Err && r->Err_0 is Validation && r->Err_0->Validation_0@ == raw@,
        },
{
    match parsed {
        Some(t) => Ok(t),
        None => Err(ApiError::Validation(raw.to_owned())),
    }
}

/// Reads a note id from a path segment. Malformed ids are a validation
/// error, distinct from a well-formed id that names no note.
pub fn parse_note_id(raw: &str) -> (r: Result<String, ApiError>)
    ensures
        match uuid_text(raw@) {
            Some(t) => r is Ok && r->Ok_0@ == t && is_note_id(t),
            None => r is Err && r->Err_0 is Validation && r->Err_0->Validation_0@ == raw@,
        },
        is_note_id(raw@) ==> r is Ok && r->Ok_0@ == raw@,
{
    let parsed = parse_uuid_text(raw);
    note_id_outcome(raw, parsed)
}

} // verus!
