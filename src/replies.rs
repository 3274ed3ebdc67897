//! What the query and submission paths answer, before it is rendered.
use vstd::prelude::*;
use vstd::string::StringExecFns;
use crate::ingest::Phase;
use crate::values::{uuid_text, uuid_text_of};

verus! {

/// The kind of an error body.
#[derive(Debug, Clone, Copy, PartialEq, Eq, Structural)]
pub enum ErrorKey {
    EntityNotFound,
    InternalServerError,
}

/// An error body: its kind and a human-readable message.
#[derive(Debug, PartialEq)]
pub struct Error {
    pub key: ErrorKey,
    pub message: String,
}

/// An answer to a request: a success body, or an error of one of two kinds.
#[derive(Debug, PartialEq)]
pub enum Response {
    Success(String),
    NotFound(Error),
    InternalServerError(Error),
}

pub open spec fn not_found_text(id: Seq<char>) -> Seq<char> {
    "Entity not found for id '"@ + id + "'"@
}

/// A success carrying `body`.
pub fn ok(body: String) -> (r: Response)
    ensures
        r == Response::Success(body),
{
    Response::Success(body)
}

/// A not-found answer naming the id that was asked for.
pub fn entity_not_found(id: &str) -> (r: Response)
    ensures
        r matches Response::NotFound(e) && e.key == ErrorKey::EntityNotFound && e.message@
            == not_found_text(id@),
{
    let message = String::from_str("Entity not found for id '").concat(id).concat("'");
    Response::NotFound(Error { key: ErrorKey::EntityNotFound, message })
}

/// A server-error answer with `message`.
pub fn internal_server_error(message: &str) -> (r: Response)
    ensures
        r matches Response::InternalServerError(e) && e.key == ErrorKey::InternalServerError
            && e.message@ == message@,
{
    Response::InternalServerError(
        Error { key: ErrorKey::InternalServerError, message: String::from_str(message) },
    )
}

/// The answer to a status query for `upload_id`: not found when no row is
/// stored, a server error when the stored row could not be rendered (`body` is
/// `None`), else the rendered row.
pub fn get_upload(upload_id: u128, found: bool, body: Option<String>) -> (r: Response)
    ensures
        !found ==> (r matches Response::NotFound(e) && e.key == ErrorKey::EntityNotFound
            && e.message@ == not_found_text(uuid_text_of(upload_id))),
        found && body is None ==> (r matches Response::InternalServerError(e) && e.key
            == ErrorKey::InternalServerError && e.message@ == "Failed to serialize upload data"@),
        found ==> (body matches Some(b) ==> r == Response::Success(b)),
{
    if !found {
        let id = uuid_text(upload_id);
        entity_not_found(id.as_str())
    } else {
        match body {
            Some(b) => ok(b),
            None => internal_server_error("Failed to serialize upload data"),
        }
    }
}

/// The answer to a batch submission: a server error when the upload id is no
/// uuid (`phase` is `None`) or the batch could not be recorded as
/// `Processing`, else the acknowledgement `Uploaded`.
pub fn upload_stream_data(phase: Option<&Phase>) -> (r: Response)
    ensures
        phase is None ==> (r matches Response::InternalServerError(e) && e.key
            == ErrorKey::InternalServerError && e.message@ == "Invalid upload id"@),
        phase matches Some(p) ==> match *p {
            Phase::Rejected(m) => r matches Response::InternalServerError(e) && e.key
                == ErrorKey::InternalServerError && e.message@ == m@,
            _ => r matches Response::Success(b) && b@ == "Uploaded"@,
        },
{
    match phase {
        None => internal_server_error("Invalid upload id"),
        Some(Phase::Rejected(m)) => internal_server_error(m.as_str()),
        Some(_) => ok(String::from_str("Uploaded")),
    }
}

} // verus!
