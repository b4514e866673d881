use vstd::prelude::*;
use crate::text::decimal_spec;

verus! {

/// What the HTTP crate's `StatusCode` prints for `status`: the code, a space, and
/// its canonical reason phrase (`<unknown status code>` where it has none).
pub uninterp spec fn http_status_text(status: u16) -> Seq<char>;

/// `reqwest::StatusCode::from_u16` then `to_string`. `from_u16` accepts the codes
/// 100 to 999, which the `requires` keeps to. Its `Display` writes the code in
/// decimal, a space, then the canonical reason or `<unknown status code>`; the
/// result is named, and its first part (the code and the space) is stated, while
/// the reason phrase, taken from a table in the crate, is left to the name.
#[verifier::external_body]
pub(crate) fn status_text(status: u16) -> (r: String)
    requires
        100 <= status < 1000,
    ensures
        r@ == http_status_text(status),
        r@.len() > decimal_spec(status as nat).len() + 1,
        r@.subrange(0, decimal_spec(status as nat).len() + 1int) == decimal_spec(status as nat) + " "@,
{
    match reqwest::StatusCode::from_u16(status) {
        Ok(code) => code.to_string(),
        Err(_) => String::new(),
    }
}

} // verus!
