//! The request and response bodies of the HTTP interface.

use vstd::prelude::*;

verus! {

/// The body of a note creation request.
pub struct CreateNoteSchema {
    pub title: String,
    pub content: String,
    pub category: Option<String>,
    pub published: Option<bool>,
    pub tags: Vec<String>,
}

/// The body of a note update request: each field that is present replaces
/// the stored one.
pub struct UpdateNoteSchema {
    pub title: Option<String>,
    pub content: Option<String>,
    pub category: Option<String>,
    pub published: Option<bool>,
    pub tags: Option<Vec<String>>,
}

/// The query of a note listing: page size, page number (from 1) and tags.
pub struct FilterOptions {
    pub limit: Option<usize>,
    pub page: Option<usize>,
    pub tags: Vec<String>,
}

impl Default for FilterOptions {
    fn default() -> (r: FilterOptions)
        ensures
            r.limit is None,
            r.page is None,
            r.tags@.len() == 0,
    {
        FilterOptions { limit: None, page: None, tags: Vec::new() }
    }
}

/// The multipart form of an upload, as documented: one binary `file` part.
pub struct UploadAttachmentSchema {
    pub file: String,
}

/// The documented body of a download: the file's bytes.
pub struct FileDownloadResponse {
    pub file: Vec<u8>,
}

/// The documented body of a delete answer.
pub struct DeleteAttachmentResponse {
    pub status: String,
    pub message: String,
}

} // verus!
