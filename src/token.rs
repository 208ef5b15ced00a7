use vstd::prelude::*;

use uuid::Uuid;

verus! {

/// A lower-case hexadecimal digit.
pub open spec fn is_lower_hex(c: char) -> bool {
    ('0' <= c <= '9') || ('a' <= c <= 'f')
}

/// Text in the hyphenated lower-case form of a version-4 UUID: 36 characters, dashes
/// at positions 8, 13, 18 and 23, hex digits elsewhere, and the version digit `4`.
pub open spec fn is_uuid_text(t: Seq<char>) -> bool {
    &&& t.len() == 36
    &&& forall|i: int|
        0 <= i < 36 ==> if i == 8 || i == 13 || i == 18 || i == 23 {
            #[trigger] t[i] == '-'
        } else {
            is_lower_hex(t[i])
        }
    &&& t[14] == '4'
}

/// Relies on uuid's `Uuid::new_v4` and its `Display`: a random version-4 UUID in the
/// hyphenated lower-case form. Which one comes out is left open.
#[verifier::external_body]
pub(crate) fn new_token() -> (r: String)
    ensures
        is_uuid_text(r@),
{
    Uuid::new_v4().to_string()
}

} // verus!
