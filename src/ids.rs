//! Fresh message and thread ids.
use vstd::prelude::*;

verus! {

/// A character of the hyphenated lower-case form of a UUID at position `i`:
/// hyphens after the 8th, 12th, 16th and 20th digit, lower-case hex digits
/// elsewhere.
pub open spec fn uuid_char_at(c: char, i: int) -> bool {
    if i == 8 || i == 13 || i == 18 || i == 23 {
        c == '-'
    } else {
        ('0' <= c && c <= '9') || ('a' <= c && c <= 'f')
    }
}

/// Relies on `uuid::Uuid::new_v4` and the `Display` form of `uuid::Uuid`
/// (its hyphenated lower-case form): a random version-4 id, 36 characters
/// long. Each call may give another id.
#[verifier::external_body]
pub(crate) fn fresh_id() -> (r: String)
    ensures
        r@.len() == 36,
        forall|i: int| 0 <= i < 36 ==> uuid_char_at(#[trigger] r@[i], i),
{
    uuid::Uuid::new_v4().to_string()
}

} // verus!
