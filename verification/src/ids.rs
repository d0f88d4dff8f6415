//! Identifiers: their textual form and fresh random ones.

use uuid::Uuid;
use vstd::prelude::*;

verus! {

/// The lower-case hexadecimal digit of a value below 16.
pub open spec fn hex_char(d: nat) -> char {
    if d < 10 {
        (d + 48) as char
    } else {
        (d + 87) as char
    }
}

/// Whether position `i` of the hyphenated UUID text holds a hyphen.
pub open spec fn is_hyphen_position(i: int) -> bool {
    i == 8 || i == 13 || i == 18 || i == 23
}

/// Which of the 32 hexadecimal digits (most significant first) stands at
/// position `i` of the hyphenated text.
pub open spec fn digit_index(i: int) -> int {
    if i < 8 {
        i
    } else if i < 13 {
        i - 1
    } else if i < 18 {
        i - 2
    } else if i < 23 {
        i - 3
    } else {
        i - 4
    }
}

/// The `k`-th hexadecimal digit (most significant first) of a 128-bit value.
pub open spec fn nibble(id: u128, k: int) -> nat {
    ((id >> ((124 - 4 * k) as u128)) & 0xfu128) as nat
}

/// The hyphenated lower-case text of the UUID with this 128-bit value: its
/// 32 hexadecimal digits, most significant first, in groups of 8, 4, 4, 4
/// and 12 joined by hyphens.
pub open spec fn uuid_text(id: u128) -> Seq<char> {
    Seq::new(
        36,
        |i: int|
            if is_hyphen_position(i) {
                '-'
            } else {
                hex_char(nibble(id, digit_index(i)))
            },
    )
}

/// Whether a 128-bit value is a random (version 4, RFC 4122 variant) UUID.
pub open spec fn is_random_uuid(id: u128) -> bool {
    &&& (id >> 76u128) & 0xfu128 == 4
    &&& (id >> 62u128) & 0x3u128 == 2
}

/// Calls `Uuid::from_u128` and then `to_string`, which formats the UUID in
/// its hyphenated lower-case form, digits most significant first.
#[verifier::external_body]
pub(crate) fn uuid_to_string(id: u128) -> (r: String)
    ensures
        r@ == uuid_text(id),
{
    Uuid::from_u128(id).to_string()
}

/// Calls `Uuid::new_v4` and returns its 128-bit value. The value is random;
/// what holds of every outcome is that the version nibble is 4 and the
/// variant bits are `10`, as the crate sets them.
#[verifier::external_body]
pub(crate) fn new_random_id() -> (r: u128)
    ensures
        is_random_uuid(r),
{
    Uuid::new_v4().as_u128()
}

/// The text of a random UUID shows its version: the first digit of its
/// third group is `4`.
pub proof fn random_uuid_text_shows_version(id: u128)
    requires
        is_random_uuid(id),
    ensures
        uuid_text(id).len() == 36,
        uuid_text(id)[14] == '4',
{
    assert(nibble(id, 12) == 4);
}

} // verus!
