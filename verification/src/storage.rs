//! Where uploaded files are kept and how a download names them.

use vstd::prelude::*;

verus! {

/// The path an upload is stored under: inside `uploads`, named by a fresh
/// identifier, a hyphen and the original file name.
pub open spec fn stored_path(id_text: Seq<char>, filename: Seq<char>) -> Seq<char> {
    "uploads/"@ + id_text + "-"@ + filename
}

/// The `Content-Disposition` header value of a download.
pub open spec fn disposition_text(original_filename: Option<Seq<char>>) -> Seq<char> {
    let name = match original_filename {
        Some(n) => n,
        None => "download"@,
    };
    "attachment; filename=\""@ + name + "\""@
}

/// The path an upload is stored under.
pub fn stored_file_path(id_text: &str, filename: &str) -> (r: String)
    ensures
        r@ == stored_path(id_text@, filename@),
{
    let mut path = String::from_str("uploads/");
    path.append(id_text);
    path.append("-");
    path.append(filename);
    path
}

/// The `Content-Disposition` header value for a download: the original file
/// name, or `download` where none was recorded.
pub fn content_disposition(original_filename: &Option<String>) -> (r: String)
    ensures
        r@ == disposition_text(original_filename.deep_view()),
{
    let mut value = String::from_str("attachment; filename=\"");
    match original_filename {
        Some(name) => value.append(name.as_str()),
        None => value.append("download"),
    }
    value.append("\"");
    value
}

/// Two uploads stored under identifiers of the same length get the same
/// path only when both the identifier and the original file name agree.
pub proof fn stored_paths_are_distinct(a: Seq<char>, f: Seq<char>, b: Seq<char>, g: Seq<char>)
    requires
        a.len() == b.len(),
        stored_path(a, f) == stored_path(b, g),
    ensures
        a == b,
        f == g,
{
    reveal_strlit("uploads/");
    reveal_strlit("-");
    let p = stored_path(a, f);
    let q = stored_path(b, g);
    assert(p.subrange(8, 8 + a.len() as int) =~= a);
    assert(q.subrange(8, 8 + b.len() as int) =~= b);
    assert(p.subrange(9 + a.len() as int, p.len() as int) =~= f);
    assert(q.subrange(9 + b.len() as int, q.len() as int) =~= g);
}

} // verus!
