//! Fresh random identifiers.

use vstd::prelude::*;

verus! {

/// A lower-case hexadecimal digit.
pub open spec fn hex_digit(c: char) -> bool {
    '0' <= c <= '9' || 'a' <= c <= 'f'
}

/// The shape of a random UUID in its hyphenated form.
pub open spec fn uuid_text(s: Seq<char>) -> bool {
    &&& s.len() == 36
    &&& s[8] == '-' && s[13] == '-' && s[18] == '-' && s[23] == '-'
    &&& s[14] == '4'
    &&& s[19] == '8' || s[19] == '9' || s[19] == 'a' || s[19] == 'b'
    &&& forall|i: int|
        0 <= i < 36 && i != 8 && i != 13 && i != 18 && i != 23 ==> hex_digit(#[trigger] s[i])
}

/// The shape of a random UUID without hyphens.
pub open spec fn simple_uuid_text(s: Seq<char>) -> bool {
    &&& s.len() == 32
    &&& s[12] == '4'
    &&& s[16] == '8' || s[16] == '9' || s[16] == 'a' || s[16] == 'b'
    &&& forall|i: int| 0 <= i < 32 ==> hex_digit(#[trigger] s[i])
}

/// `Uuid::new_v4`, in the hyphenated form that `Uuid` displays as: the version
/// and the variant are fixed, every other digit is random.
#[verifier::external_body]
pub(crate) fn fresh_uuid() -> (id: String)
    ensures
        uuid_text(id@),
{
    uuid::Uuid::new_v4().to_string()
}

/// `Uuid::simple` of a `Uuid::new_v4`: the same digits without hyphens.
#[verifier::external_body]
pub(crate) fn fresh_simple_uuid() -> (id: String)
    ensures
        simple_uuid_text(id@),
{
    uuid::Uuid::new_v4().simple().to_string()
}

} // verus!
