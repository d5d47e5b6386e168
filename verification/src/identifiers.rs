//! Freshly drawn identifiers.

use vstd::prelude::*;

verus! {

/// Whether `c` is a hexadecimal digit in lower case.
pub open spec fn is_lower_hex(c: char) -> bool {
    ('0' <= c && c <= '9') || ('a' <= c && c <= 'f')
}

/// Whether `s` has the shape of a UUID in its usual writing: thirty-two
/// hexadecimal digits in lower case, in groups of eight, four, four, four
/// and twelve that are parted by hyphens.
pub open spec fn is_uuid_text(s: Seq<char>) -> bool {
    &&& s.len() == 36
    &&& forall|i: int|
        0 <= i < 36 ==> if i == 8 || i == 13 || i == 18 || i == 23 {
            #[trigger] s[i] == '-'
        } else {
            is_lower_hex(s[i])
        }
}

/// `uuid::Uuid::new_v4` followed by the UUID's `Display`, which writes it
/// hyphenated and in lower case. The UUID is drawn at random from the
/// system's source of randomness, so nothing but its shape is known; where
/// that source fails the call does not return.
#[verifier::external_body]
pub(crate) fn new_uuid_text() -> (id: String)
    ensures
        is_uuid_text(id@),
{
    uuid::Uuid::new_v4().to_string()
}

} // verus!
