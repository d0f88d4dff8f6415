//! Text helpers: decimal rendering of counts and the string facts the
//! rest of the library relies on.

use std::path::Path;
use vstd::prelude::*;

verus! {

/// The character of a decimal digit.
pub open spec fn digit_char(d: nat) -> char {
    if d == 0 { '0' }
    else if d == 1 { '1' }
    else if d == 2 { '2' }
    else if d == 3 { '3' }
    else if d == 4 { '4' }
    else if d == 5 { '5' }
    else if d == 6 { '6' }
    else if d == 7 { '7' }
    else if d == 8 { '8' }
    else { '9' }
}

/// The decimal rendering of a natural number, without sign or leading zeros.
pub open spec fn decimal(n: nat) -> Seq<char>
    decreases n,
{
    if n < 10 {
        seq![digit_char(n)]
    } else {
        decimal(n / 10) + seq![digit_char(n % 10)]
    }
}

fn digit_text(d: usize) -> (s: &'static str)
    requires
        d < 10,
    ensures
        s@ == seq![digit_char(d as nat)],
{
    if d == 0 {
        proof { reveal_strlit("0"); }
        "0"
    } else if d == 1 {
        proof { reveal_strlit("1"); }
        "1"
    } else if d == 2 {
        proof { reveal_strlit("2"); }
        "2"
    } else if d == 3 {
        proof { reveal_strlit("3"); }
        "3"
    } else if d == 4 {
        proof { reveal_strlit("4"); }
        "4"
    } else if d == 5 {
        proof { reveal_strlit("5"); }
        "5"
    } else if d == 6 {
        proof { reveal_strlit("6"); }
        "6"
    } else if d == 7 {
        proof { reveal_strlit("7"); }
        "7"
    } else if d == 8 {
        proof { reveal_strlit("8"); }
        "8"
    } else {
        proof { reveal_strlit("9"); }
        "9"
    }
}

/// Appends the decimal rendering of `n` to `out`.
pub fn push_decimal(out: &mut String, n: usize)
    ensures
        final(out)@ == old(out)@ + decimal(n as nat),
    decreases n,
{
    if n < 10 {
        out.append(digit_text(n));
    } else {
        push_decimal(out, n / 10);
        out.append(digit_text(n % 10));
        proof {
            assert(decimal(n as nat) == decimal((n / 10) as nat) + seq![digit_char((n % 10) as nat)]);
        }
    }
}


/// What `str::to_lowercase` returns for a string with the given characters.
pub uninterp spec fn lowercase(s: Seq<char>) -> Seq<char>;

/// What `Path::extension` gives for a path spelt with the given characters,
/// as text (`None` where there is no extension).
pub uninterp spec fn path_extension(path: Seq<char>) -> Option<Seq<char>>;

/// The lower-case form of an ASCII character; other characters are kept.
pub open spec fn ascii_lower(c: char) -> char {
    if 'A' <= c && c <= 'Z' {
        ((c as u32) + 32) as char
    } else {
        c
    }
}

/// Calls `str::to_lowercase`. Its result is named by `lowercase`; std's
/// documentation defines it by Unicode's lower-case mapping, which on ASCII
/// text maps `A`..=`Z` to `a`..=`z` and keeps every other character. Nothing
/// is stated of non-ASCII text beyond the name.
#[verifier::external_body]
pub(crate) fn to_lowercase(s: &str) -> (r: String)
    ensures
        r@ == lowercase(s@),
        vstd::utf8::is_ascii_chars(s@) ==> r@ == s@.map_values(|c: char| ascii_lower(c)),
{
    s.to_lowercase()
}

/// The position of the last `.` in a text, or -1 where it has none.
pub open spec fn last_dot(s: Seq<char>) -> int
    decreases s.len(),
{
    if s.len() == 0 {
        -1
    } else if s.last() == '.' {
        s.len() - 1
    } else {
        last_dot(s.drop_last())
    }
}

/// A bare file name: no directory part, nothing any platform reads as a
/// separator or drive prefix, and not the parent directory `..`.
pub open spec fn is_plain_file_name(s: Seq<char>) -> bool {
    &&& forall|i: int| 0 <= i < s.len() ==> #[trigger] s[i] != '/' && s[i] != '\\' && s[i] != ':'
    &&& s != seq!['.', '.']
}

/// The extension of a bare file name, as std documents it: the part after
/// the last `.`, and none where there is no `.` or the only one starts the
/// name.
pub open spec fn plain_name_extension(s: Seq<char>) -> Option<Seq<char>> {
    if last_dot(s) <= 0 {
        None
    } else {
        Some(s.subrange(last_dot(s) + 1, s.len() as int))
    }
}

/// Calls `Path::extension` on `filename` and turns the extension into text.
/// Its result is named by `path_extension`. As std documents it, the
/// extension is the part of the final file name after its last `.`, so it
/// holds no `.`, and a path with no `.` at all has none; for a bare file
/// name it is stated exactly. How the final file name is cut out of a path
/// with directories is left unsaid.
#[verifier::external_body]
pub(crate) fn file_extension(filename: &str) -> (r: Option<String>)
    ensures
        r.deep_view() == path_extension(filename@),
        r matches Some(e) ==> !e@.contains('.'),
        !filename@.contains('.') ==> r is None,
        is_plain_file_name(filename@) ==> r.deep_view() == plain_name_extension(filename@),
{
    match Path::new(filename).extension() {
        Some(ext) => ext.to_str().map(String::from),
        None => None,
    }
}

} // verus!
