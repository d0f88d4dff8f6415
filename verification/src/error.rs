//! The ways an attachment operation can fail, how each one reads, and
//! which HTTP status answers it.

use crate::models::DbError;
use crate::text::{decimal, push_decimal};
use vstd::prelude::*;

verus! {

/// Why an attachment operation failed.
pub enum AttachmentError {
    /// The upload has this many bytes, more than the limit.
    FileTooBig(usize),
    /// The upload's file type is refused; the text says why.
    InvalidFileType(String),
    /// The upload carries no file (or no file name); the text says which.
    MissingFile(String),
    /// Reading or writing the stored file (or the upload itself) failed.
    StorageError(String),
    /// The database failed.
    DatabaseError(DbError),
    /// No attachment has the requested identifier.
    NotFound,
    /// No note has the requested identifier.
    NoteNotFound,
}

/// The human-readable rendering of an error.
pub open spec fn error_text(e: AttachmentError) -> Seq<char> {
    match e {
        AttachmentError::FileTooBig(size) => "File size "@ + decimal(size as nat) + " bytes exceeds limit"@,
        AttachmentError::InvalidFileType(ext) => "Invalid file type: "@ + ext@,
        AttachmentError::MissingFile(msg) => "Missing file: "@ + msg@,
        AttachmentError::StorageError(msg) => "Storage error: "@ + msg@,
        AttachmentError::DatabaseError(db) => "Database error: "@ + db.message@,
        AttachmentError::NotFound => "Attachment not found"@,
        AttachmentError::NoteNotFound => "Note not found"@,
    }
}

/// The HTTP status that answers an error.
pub open spec fn error_status(e: AttachmentError) -> u16 {
    match e {
        AttachmentError::FileTooBig(_) => 413,
        AttachmentError::InvalidFileType(_) => 400,
        AttachmentError::MissingFile(_) => 400,
        AttachmentError::StorageError(_) => 500,
        AttachmentError::DatabaseError(_) => 500,
        AttachmentError::NotFound => 404,
        AttachmentError::NoteNotFound => 404,
    }
}

/// The fixed message sent to the client for an error.
pub open spec fn error_reply_message(e: AttachmentError) -> Seq<char> {
    match e {
        AttachmentError::FileTooBig(_) => "File size exceeds limit"@,
        AttachmentError::InvalidFileType(_) => "Invalid file type"@,
        AttachmentError::MissingFile(_) => "Missing file"@,
        AttachmentError::StorageError(_) => "Error storing attachment"@,
        AttachmentError::DatabaseError(_) => "Database error"@,
        AttachmentError::NotFound => "Attachment not found"@,
        AttachmentError::NoteNotFound => "Note not found"@,
    }
}

impl AttachmentError {
    /// Renders the error for people (logs, diagnostics).
    pub fn describe(&self) -> (r: String)
        ensures
            r@ == error_text(*self),
    {
        match self {
            AttachmentError::FileTooBig(size) => {
                let mut out = String::from_str("File size ");
                push_decimal(&mut out, *size);
                out.append(" bytes exceeds limit");
                out
            },
            AttachmentError::InvalidFileType(ext) => {
                let mut out = String::from_str("Invalid file type: ");
                out.append(ext.as_str());
                out
            },
            AttachmentError::MissingFile(msg) => {
                let mut out = String::from_str("Missing file: ");
                out.append(msg.as_str());
                out
            },
            AttachmentError::StorageError(msg) => {
                let mut out = String::from_str("Storage error: ");
                out.append(msg.as_str());
                out
            },
            AttachmentError::DatabaseError(db) => {
                let mut out = String::from_str("Database error: ");
                out.append(db.message.as_str());
                out
            },
            AttachmentError::NotFound => String::from_str("Attachment not found"),
            AttachmentError::NoteNotFound => String::from_str("Note not found"),
        }
    }

    /// The HTTP status and the client-facing message for this error.
    pub fn status_and_message(&self) -> (r: (u16, &'static str))
        ensures
            r.0 == error_status(*self),
            r.1@ == error_reply_message(*self),
    {
        match self {
            AttachmentError::FileTooBig(_) => (413, "File size exceeds limit"),
            AttachmentError::InvalidFileType(_) => (400, "Invalid file type"),
            AttachmentError::MissingFile(_) => (400, "Missing file"),
            AttachmentError::StorageError(_) => (500, "Error storing attachment"),
            AttachmentError::DatabaseError(_) => (500, "Database error"),
            AttachmentError::NotFound => (404, "Attachment not found"),
            AttachmentError::NoteNotFound => (404, "Note not found"),
        }
    }
}

/// Classifies a database failure met while looking an attachment up: the
/// "no row" failure means the attachment does not exist; any other stays a
/// database error.
pub fn lookup_failure(db: DbError) -> (r: AttachmentError)
    ensures
        db.row_not_found ==> r is NotFound,
        !db.row_not_found ==> r == AttachmentError::DatabaseError(db),
{
    if db.row_not_found {
        AttachmentError::NotFound
    } else {
        AttachmentError::DatabaseError(db)
    }
}

/// Whether the note a listing is for exists: a missing note is answered
/// "note not found"; a failed lookup is a database error.
pub fn note_presence(found: Result<bool, DbError>) -> (r: Result<(), AttachmentError>)
    ensures
        match found {
            Ok(true) => r is Ok,
            Ok(false) => r == Err::<(), AttachmentError>(AttachmentError::NoteNotFound),
            Err(db) => r == Err::<(), AttachmentError>(AttachmentError::DatabaseError(db)),
        },
{
    match found {
        Ok(true) => Ok(()),
        Ok(false) => Err(AttachmentError::NoteNotFound),
        Err(db) => Err(AttachmentError::DatabaseError(db)),
    }
}

} // verus!
