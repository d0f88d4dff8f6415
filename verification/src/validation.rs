//! What an upload must satisfy before it is stored, and where it is stored.

use crate::error::AttachmentError;
use crate::text::{
    ascii_lower, file_extension, is_plain_file_name, lowercase, path_extension, plain_name_extension,
    to_lowercase,
};
use vstd::prelude::*;

verus! {

/// The largest upload accepted, in bytes (10 MiB).
pub const MAX_FILE_SIZE: usize = 10 * 1024 * 1024;

/// The file types an upload may have, by lower-case extension.
pub open spec fn allowed_extension(ext: Seq<char>) -> bool {
    ||| ext == seq!['p', 'd', 'f']
    ||| ext == seq!['d', 'o', 'c']
    ||| ext == seq!['d', 'o', 'c', 'x']
    ||| ext == seq!['t', 'x', 't']
}

/// The explanation given when an upload's type is refused.
pub open spec fn refused_type_text(ext: Seq<char>) -> Seq<char> {
    "File type '."@ + ext + "' is not supported. Allowed types are: pdf, doc, docx, txt"@
}

/// The extension of a file name as written, empty where it has none.
pub open spec fn raw_extension(filename: Seq<char>) -> Seq<char> {
    match path_extension(filename) {
        Some(e) => e,
        None => Seq::<char>::empty(),
    }
}

/// The lower-case extension of a file name, empty where it has none.
pub open spec fn normalized_extension(filename: Seq<char>) -> Seq<char> {
    lowercase(raw_extension(filename))
}

/// What checking an upload's lower-case extension yields.
pub open spec fn file_type_verdict(ext: Seq<char>, r: Result<(), AttachmentError>) -> bool {
    if allowed_extension(ext) {
        r is Ok
    } else {
        r matches Err(AttachmentError::InvalidFileType(m)) && m@ == refused_type_text(ext)
    }
}

fn same_text(a: &str, b: &str) -> (r: bool)
    ensures
        r == (a@ == b@),
{
    let x = String::from_str(a);
    let y = String::from_str(b);
    x == y
}

/// Checks a lower-case extension against the allowed file types.
pub fn check_file_type(extension: &str) -> (r: Result<(), AttachmentError>)
    ensures
        file_type_verdict(extension@, r),
{
    proof {
        reveal_strlit("pdf");
        reveal_strlit("doc");
        reveal_strlit("docx");
        reveal_strlit("txt");
        assert("pdf"@ =~= seq!['p', 'd', 'f']);
        assert("doc"@ =~= seq!['d', 'o', 'c']);
        assert("docx"@ =~= seq!['d', 'o', 'c', 'x']);
        assert("txt"@ =~= seq!['t', 'x', 't']);
    }
    if same_text(extension, "pdf") || same_text(extension, "doc") || same_text(extension, "docx")
        || same_text(extension, "txt") {
        Ok(())
    } else {
        let mut msg = String::from_str("File type '.");
        msg.append(extension);
        msg.append("' is not supported. Allowed types are: pdf, doc, docx, txt");
        Err(AttachmentError::InvalidFileType(msg))
    }
}

/// Validates an upload: first its size, then its file type, judged by the
/// lower-cased extension of its name. For a bare file name the extension is
/// the part after its last `.` (none for a dot file), and an ASCII
/// extension is lower-cased letter by letter.
pub fn validate_file(filename: &str, size: usize) -> (r: Result<(), AttachmentError>)
    ensures
        size > MAX_FILE_SIZE ==> r == Err::<(), AttachmentError>(AttachmentError::FileTooBig(size)),
        size <= MAX_FILE_SIZE ==> file_type_verdict(normalized_extension(filename@), r),
        size <= MAX_FILE_SIZE && is_plain_file_name(filename@) ==> path_extension(filename@)
            == plain_name_extension(filename@),
        size <= MAX_FILE_SIZE && vstd::utf8::is_ascii_chars(raw_extension(filename@))
            ==> normalized_extension(filename@) == raw_extension(filename@).map_values(
            |c: char| ascii_lower(c),
        ),
{
    if size > MAX_FILE_SIZE {
        return Err(AttachmentError::FileTooBig(size));
    }
    let ext = file_extension(filename);
    let lowered = match ext {
        Some(e) => to_lowercase(e.as_str()),
        None => {
            proof {
                reveal_strlit("");
                assert(""@ =~= Seq::<char>::empty());
            }
            to_lowercase("")
        },
    };
    check_file_type(lowered.as_str())
}

} // verus!
