//! The HTTP answers of every endpoint: status code and body.

use crate::error::{error_reply_message, error_status, AttachmentError};
use crate::ids::{uuid_text, uuid_to_string};
use crate::models::{AttachmentModel, DbError, NoteModel};
use vstd::prelude::*;

verus! {

/// The JSON body of an answer.
pub enum ReplyBody {
    /// `{"status": status, "message": message}`.
    Message { status: String, message: String },
    /// `{"status": "success", "results": results, "notes": notes}`.
    NoteList { results: usize, notes: Vec<NoteModel> },
    /// `{"status": "success", "data": {"note": note}}`.
    NoteData { note: NoteModel },
    /// `{"status": "success", "data": {"attachment": attachment}}`.
    AttachmentData { attachment: AttachmentModel },
    /// `{"status": "success", "results": results, "attachments": attachments}`.
    AttachmentList { results: usize, attachments: Vec<AttachmentModel> },
    /// No body.
    Empty,
}

/// An answer: HTTP status code and body.
pub struct Reply {
    pub status: u16,
    pub body: ReplyBody,
}

/// Whether a body is the status-and-message body with these texts.
pub open spec fn is_message(body: ReplyBody, status: Seq<char>, message: Seq<char>) -> bool {
    body matches ReplyBody::Message { status: s, message: m } && s@ == status && m@ == message
}

/// The text a note lookup or deletion answers with when it fails.
pub open spec fn note_missing_text(id: u128) -> Seq<char> {
    "Note with ID: "@ + uuid_text(id) + " not found"@
}

fn message_reply(status: u16, kind: &str, message: String) -> (r: Reply)
    ensures
        r.status == status,
        is_message(r.body, kind@, message@),
{
    Reply { status, body: ReplyBody::Message { status: String::from_str(kind), message } }
}

fn prefixed(prefix: &str, rest: &str) -> (r: String)
    ensures
        r@ == prefix@ + rest@,
{
    let mut out = String::from_str(prefix);
    out.append(rest);
    out
}

fn note_missing_message(id: u128) -> (r: String)
    ensures
        r@ == note_missing_text(id),
{
    let mut out = String::from_str("Note with ID: ");
    let id_text = uuid_to_string(id);
    out.append(id_text.as_str());
    out.append(" not found");
    out
}

/// The answer of the health check.
pub fn health_reply() -> (r: Reply)
    ensures
        r.status == 200,
        is_message(r.body, "success"@, "Simple CRUD API with Rust, Axum, SQLx, and Postgres"@),
{
    message_reply(
        200,
        "success",
        String::from_str("Simple CRUD API with Rust, Axum, SQLx, and Postgres"),
    )
}

/// The answer of a note listing: the page of notes with their count, or a
/// server error quoting the database's diagnostic.
pub fn note_list_reply(result: Result<Vec<NoteModel>, DbError>) -> (r: Reply)
    ensures
        match result {
            Ok(notes) => r.status == 200 && r.body == (ReplyBody::NoteList {
                results: notes@.len() as usize,
                notes,
            }),
            Err(db) => r.status == 500 && is_message(
                r.body,
                "fail"@,
                "Error fetching notes: "@ + db.details@,
            ),
        },
{
    match result {
        Ok(notes) => {
            let results = notes.len();
            Reply { status: 200, body: ReplyBody::NoteList { results, notes } }
        },
        Err(db) => message_reply(500, "fail", prefixed("Error fetching notes: ", db.details.as_str())),
    }
}

/// The answer of a note creation: the new note with 201, or a server error
/// quoting the database's diagnostic.
pub fn note_created_reply(result: Result<NoteModel, DbError>) -> (r: Reply)
    ensures
        match result {
            Ok(note) => r.status == 201 && r.body == (ReplyBody::NoteData { note }),
            Err(db) => r.status == 500 && is_message(
                r.body,
                "fail"@,
                "Error creating note: "@ + db.details@,
            ),
        },
{
    match result {
        Ok(note) => Reply { status: 201, body: ReplyBody::NoteData { note } },
        Err(db) => message_reply(500, "fail", prefixed("Error creating note: ", db.details.as_str())),
    }
}

/// The answer of a note lookup: the note, or 404 naming the identifier
/// whatever the failure was.
pub fn note_fetched_reply(id: u128, result: Result<NoteModel, DbError>) -> (r: Reply)
    ensures
        match result {
            Ok(note) => r.status == 200 && r.body == (ReplyBody::NoteData { note }),
            Err(_) => r.status == 404 && is_message(r.body, "fail"@, note_missing_text(id)),
        },
{
    match result {
        Ok(note) => Reply { status: 200, body: ReplyBody::NoteData { note } },
        Err(_) => message_reply(404, "fail", note_missing_message(id)),
    }
}

/// The answer of a note update: the updated note, or a server error quoting
/// the database's diagnostic.
pub fn note_updated_reply(result: Result<NoteModel, DbError>) -> (r: Reply)
    ensures
        match result {
            Ok(note) => r.status == 200 && r.body == (ReplyBody::NoteData { note }),
            Err(db) => r.status == 500 && is_message(
                r.body,
                "fail"@,
                "Error updating note: "@ + db.details@,
            ),
        },
{
    match result {
        Ok(note) => Reply { status: 200, body: ReplyBody::NoteData { note } },
        Err(db) => message_reply(500, "fail", prefixed("Error updating note: ", db.details.as_str())),
    }
}

/// The answer of a note deletion, given how many notes it removed: 204
/// with no body when it removed one, and 404 naming the identifier when it
/// removed none or failed.
pub fn note_deleted_reply(id: u128, result: Result<u64, DbError>) -> (r: Reply)
    ensures
        match result {
            Ok(removed) => if removed > 0 {
                r.status == 204 && r.body is Empty
            } else {
                r.status == 404 && is_message(r.body, "fail"@, note_missing_text(id))
            },
            Err(_) => r.status == 404 && is_message(r.body, "fail"@, note_missing_text(id)),
        },
{
    match result {
        Ok(removed) => if removed > 0 {
            Reply { status: 204, body: ReplyBody::Empty }
        } else {
            message_reply(404, "fail", note_missing_message(id))
        },
        Err(_) => message_reply(404, "fail", note_missing_message(id)),
    }
}

/// The answer to a failed attachment operation: the error's status with
/// its fixed client message.
pub fn attachment_error_reply(error: &AttachmentError) -> (r: Reply)
    ensures
        r.status == error_status(*error),
        is_message(r.body, "error"@, error_reply_message(*error)),
{
    let (status, message) = error.status_and_message();
    message_reply(status, "error", String::from_str(message))
}

/// The answer of an upload: the stored attachment, or the error's answer.
pub fn uploaded_reply(result: Result<AttachmentModel, AttachmentError>) -> (r: Reply)
    ensures
        match result {
            Ok(attachment) => r.status == 200 && r.body == (ReplyBody::AttachmentData { attachment }),
            Err(e) => r.status == error_status(e) && is_message(r.body, "error"@, error_reply_message(e)),
        },
{
    match result {
        Ok(attachment) => Reply { status: 200, body: ReplyBody::AttachmentData { attachment } },
        Err(e) => attachment_error_reply(&e),
    }
}

/// The outcome of listing a note's attachments: a database failure is an
/// attachment database error.
pub fn attachments_listed(result: Result<Vec<AttachmentModel>, DbError>) -> (r: Result<
    Vec<AttachmentModel>,
    AttachmentError,
>)
    ensures
        match result {
            Ok(list) => r == Ok::<Vec<AttachmentModel>, AttachmentError>(list),
            Err(db) => r == Err::<Vec<AttachmentModel>, AttachmentError>(AttachmentError::DatabaseError(db)),
        },
{
    match result {
        Ok(list) => Ok(list),
        Err(db) => Err(AttachmentError::DatabaseError(db)),
    }
}

/// The answer of an attachment listing: the attachments with their count,
/// or the error's answer.
pub fn attachment_list_reply(result: Result<Vec<AttachmentModel>, AttachmentError>) -> (r: Reply)
    ensures
        match result {
            Ok(attachments) => r.status == 200 && r.body == (ReplyBody::AttachmentList {
                results: attachments@.len() as usize,
                attachments,
            }),
            Err(e) => r.status == error_status(e) && is_message(r.body, "error"@, error_reply_message(e)),
        },
{
    match result {
        Ok(attachments) => {
            let results = attachments.len();
            Reply { status: 200, body: ReplyBody::AttachmentList { results, attachments } }
        },
        Err(e) => attachment_error_reply(&e),
    }
}

/// The answer of an attachment deletion: 204 with no body, or the error's
/// answer.
pub fn attachment_deleted_reply(result: Result<(), AttachmentError>) -> (r: Reply)
    ensures
        match result {
            Ok(()) => r.status == 204 && r.body is Empty,
            Err(e) => r.status == error_status(e) && is_message(r.body, "error"@, error_reply_message(e)),
        },
{
    match result {
        Ok(()) => Reply { status: 204, body: ReplyBody::Empty },
        Err(e) => attachment_error_reply(&e),
    }
}

/// What can go wrong reading an upload out of its multipart form.
pub enum UploadProblem {
    /// The form could not be read; the message says why.
    InvalidForm(String),
    /// The form has no part.
    NoFile,
    /// The part has no file name.
    NoFilename,
    /// The part's bytes could not be read; the message says why.
    ReadFailed(String),
}

/// The error an unreadable upload is answered with: a missing file part or
/// file name is the client's mistake (answered 400); an unreadable form or
/// file part is a storage error (answered 500).
pub fn upload_problem_error(problem: UploadProblem) -> (r: AttachmentError)
    ensures
        match problem {
            UploadProblem::InvalidForm(msg) => r matches AttachmentError::StorageError(m)
                && m@ == "Invalid multipart form: "@ + msg@,
            UploadProblem::NoFile => r matches AttachmentError::MissingFile(m)
                && m@ == "No file provided"@,
            UploadProblem::NoFilename => r matches AttachmentError::MissingFile(m)
                && m@ == "No filename provided"@,
            UploadProblem::ReadFailed(msg) => r matches AttachmentError::StorageError(m)
                && m@ == "Failed to read file: "@ + msg@,
        },
{
    match problem {
        UploadProblem::InvalidForm(msg) => AttachmentError::StorageError(
            prefixed("Invalid multipart form: ", msg.as_str()),
        ),
        UploadProblem::NoFile => AttachmentError::MissingFile(String::from_str("No file provided")),
        UploadProblem::NoFilename => AttachmentError::MissingFile(
            String::from_str("No filename provided"),
        ),
        UploadProblem::ReadFailed(msg) => AttachmentError::StorageError(
            prefixed("Failed to read file: ", msg.as_str()),
        ),
    }
}

/// The error a download is answered with when the stored file cannot be
/// read.
pub fn download_read_error(message: &str) -> (r: AttachmentError)
    ensures
        r matches AttachmentError::StorageError(m) && m@ == "Failed to read file: "@ + message@,
{
    AttachmentError::StorageError(prefixed("Failed to read file: ", message))
}

} // verus!
