//! The records the service stores and hands out, with identifiers as
//! 128-bit integers and instants as microseconds since the Unix epoch.

use vstd::prelude::*;

verus! {

/// A note as stored.
pub struct NoteModel {
    pub id: u128,
    pub title: String,
    pub content: String,
    pub category: Option<String>,
    pub tags: Vec<String>,
    pub published: Option<bool>,
    pub created_at: i64,
    pub updated_at: i64,
}

/// A file attached to a note: where it is stored and the name it was
/// uploaded under.
pub struct AttachmentModel {
    pub id: u128,
    pub note_id: u128,
    pub file_path: String,
    pub original_filename: Option<String>,
    pub created_at: i64,
}

/// A failure reported by the database: whether it is the "no row"
/// failure, and its two renderings (the human one and the diagnostic one).
pub struct DbError {
    pub row_not_found: bool,
    pub message: String,
    pub details: String,
}

} // verus!
