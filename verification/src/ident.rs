//! Fresh identifiers.

use vstd::prelude::*;

verus! {

/// Whether `c` is a hexadecimal digit in lower case.
pub open spec fn is_lower_hex(c: char) -> bool {
    ||| ('0' as int) <= (c as int) <= ('9' as int)
    ||| ('a' as int) <= (c as int) <= ('f' as int)
}

/// Whether a position of the 36 holds a hyphen: the text is written in
/// groups of 8, 4, 4, 4 and 12 digits.
pub open spec fn is_hyphen_position(i: int) -> bool {
    i == 8 || i == 13 || i == 18 || i == 23
}

/// Whether `text` is a random (version 4) UUID in its hyphenated form in
/// lower case: 36 characters, hyphens between the groups and hexadecimal
/// digits elsewhere, the version digit `4` at the head of the third group,
/// and one of `8`, `9`, `a`, `b` at the head of the fourth, for the
/// variant.
pub open spec fn is_uuid_v4_text(text: Seq<char>) -> bool {
    &&& text.len() == 36
    &&& forall|i: int|
        0 <= i < 36 ==> if is_hyphen_position(i) {
            #[trigger] text[i] == '-'
        } else {
            is_lower_hex(text[i])
        }
    &&& text[14] == '4'
    &&& (text[19] == '8' || text[19] == '9' || text[19] == 'a' || text[19] == 'b')
}

/// Draws a random version-4 identifier with `uuid::Uuid::new_v4()` and writes
/// it out with `to_string()`.
///
/// Claimed is the shape of the text, which is the same for every draw:
/// `new_v4` sets the version to 4 and the variant bits to `10`, and
/// `to_string` writes the hyphenated form in lower case. Nothing is claimed
/// of the other digits: they are random, and an identifier may come back
/// that is already in use. `uuid` itself stops the process where the system
/// hands out no random bytes.
#[verifier::external_body]
pub(crate) fn fresh_id() -> (id: String)
    ensures
        is_uuid_v4_text(id@),
{
    uuid::Uuid::new_v4().to_string()
}

} // verus!
