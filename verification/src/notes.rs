//! What the note operations compute before they reach the database.

use crate::schemas::{CreateNoteSchema, FilterOptions};
use crate::text::{lowercase, to_lowercase};
use vstd::prelude::*;

verus! {

/// The page size a listing asks for (10 by default).
pub open spec fn page_limit(filters: FilterOptions) -> nat {
    match filters.limit {
        Some(l) => l as nat,
        None => 10,
    }
}

/// The page a listing asks for, counted from 1 (1 by default).
pub open spec fn page_number(filters: FilterOptions) -> nat {
    match filters.page {
        Some(p) => p as nat,
        None => 1,
    }
}

/// How many notes a page skips: all those on the pages before it.
pub open spec fn page_offset(page: nat, limit: nat) -> int {
    (page - 1) * limit
}

/// The `LIMIT` and `OFFSET` of a listing query. The page number must be at
/// least 1 and the offset must fit in a `usize`; the two values are then
/// passed on as the database's 64-bit integers.
pub fn page_window(filters: &FilterOptions) -> (r: (i64, i64))
    requires
        page_number(*filters) >= 1,
        page_offset(page_number(*filters), page_limit(*filters)) <= usize::MAX,
    ensures
        r.0 == (page_limit(*filters) as usize) as i64,
        r.1 == (page_offset(page_number(*filters), page_limit(*filters)) as usize) as i64,
        page_limit(*filters) <= i64::MAX ==> r.0 == page_limit(*filters),
        (filters.limit matches Some(l) && l <= i64::MAX) ==> r.0 == filters.limit.unwrap(),
        filters.limit is None ==> r.0 == 10,
        page_offset(page_number(*filters), page_limit(*filters)) <= i64::MAX ==> r.1
            == page_offset(page_number(*filters), page_limit(*filters)),
{
    let limit: usize = match filters.limit {
        Some(l) => l,
        None => 10,
    };
    let page: usize = match filters.page {
        Some(p) => p,
        None => 1,
    };
    let offset: usize = (page - 1) * limit;
    (limit as i64, offset as i64)
}

/// Each page starts right where the one before it ends.
pub proof fn pages_are_adjacent(page: nat, limit: nat)
    requires
        page >= 1,
    ensures
        page_offset(page + 1, limit) == page_offset(page, limit) + limit,
        page_offset(1, limit) == 0,
{
    assert((page + 1 - 1) * limit == (page - 1) * limit + limit) by (nonlinear_arith);
}

/// Lower-cases every tag of a listing query, keeping their order.
pub fn normalize_tags(tags: Vec<String>) -> (r: Vec<String>)
    ensures
        r@.len() == tags@.len(),
        forall|i: int| 0 <= i < tags@.len() ==> #[trigger] r@[i]@ == lowercase(tags@[i]@),
{
    let mut out: Vec<String> = Vec::new();
    let n = tags.len();
    for i in 0..n
        invariant
            n == tags@.len(),
            out@.len() == i,
            forall|j: int| 0 <= j < i ==> #[trigger] out@[j]@ == lowercase(tags@[j]@),
    {
        out.push(to_lowercase(tags[i].as_str()));
    }
    out
}

/// The column values of a note about to be inserted.
pub struct NoteInsert {
    pub title: String,
    pub content: String,
    pub category: Option<String>,
    pub published: bool,
    pub tags: Vec<String>,
}

/// The values a creation request inserts: its fields as given, with an
/// unstated `published` taken as `false`.
pub fn insert_values(payload: CreateNoteSchema) -> (r: NoteInsert)
    ensures
        r.title == payload.title,
        r.content == payload.content,
        r.category == payload.category,
        r.published == match payload.published {
            Some(p) => p,
            None => false,
        },
        r.tags == payload.tags,
{
    let published = match payload.published {
        Some(p) => p,
        None => false,
    };
    NoteInsert {
        title: payload.title,
        content: payload.content,
        category: payload.category,
        published,
        tags: payload.tags,
    }
}

} // verus!
