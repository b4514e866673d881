use vstd::prelude::*;

verus! {

/// A lowercase hexadecimal digit.
pub open spec fn is_lower_hex(c: char) -> bool {
    ('0' <= c && c <= '9') || ('a' <= c && c <= 'f')
}

/// The text of a random (version 4) UUID in hyphenated lowercase form, such as
/// `67e55044-10b1-426f-9247-bb680e5fe0c8`: 36 characters, hyphens at positions 8, 13,
/// 18 and 23, lowercase hexadecimal digits elsewhere, the version digit `4` at
/// position 14 and one of `8`, `9`, `a`, `b` at position 19.
pub open spec fn is_v4_uuid_text(s: Seq<char>) -> bool {
    &&& s.len() == 36
    &&& forall|i: int|
        0 <= i < 36 ==> if i == 8 || i == 13 || i == 18 || i == 23 {
            #[trigger] s[i] == '-'
        } else {
            is_lower_hex(s[i])
        }
    &&& s[14] == '4'
    &&& (s[19] == '8' || s[19] == '9' || s[19] == 'a' || s[19] == 'b')
}

/// `uuid::Uuid::new_v4`, formatted with `to_string`. Its source masks random bits so
/// that the version nibble is 4 and the variant bits are `10`, and its `Display`
/// writes the 32 lowercase hex digits in groups of 8, 4, 4, 4 and 12 joined by
/// hyphens. Which bits are random is left open: two calls may give anything of that
/// form. The call panics when the operating system gives no random bytes.
#[verifier::external_body]
fn new_v4_text() -> (id: String)
    ensures
        is_v4_uuid_text(id@),
{
    uuid::Uuid::new_v4().to_string()
}

/// A fresh random entity id.
pub fn new_entity_id() -> (id: String)
    ensures
        is_v4_uuid_text(id@),
{
    new_v4_text()
}

} // verus!
