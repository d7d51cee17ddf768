//! HTTP status codes: which count as success, and how a status is written.

use crate::text::{decimal, decimal_of};
use vstd::prelude::*;

verus! {

/// The view of an optional value.
pub open spec fn opt_view<T: View>(o: Option<T>) -> Option<T::V> {
    match o {
        Some(v) => Some(v@),
        None => None,
    }
}

/// The canonical reason phrase that the `http` crate holds for a status code
/// (`Not Found` for 404), if it holds one.
pub uninterp spec fn canonical_reason_of(code: u16) -> Option<Seq<char>>;

/// Relies on `http::StatusCode::from_u16`, which accepts exactly the codes
/// 100 to 999, and on `StatusCode::canonical_reason`, which looks the code up
/// in a fixed table.
#[verifier::external_body]
fn canonical_reason(code: u16) -> (r: Option<&'static str>)
    ensures
        100 <= code <= 999 ==> opt_view(r) == canonical_reason_of(code),
        !(100 <= code <= 999) ==> r is None,
{
    match reqwest::StatusCode::from_u16(code) {
        Ok(status) => status.canonical_reason(),
        Err(_) => None,
    }
}

/// A status in the 2xx range.
pub open spec fn is_success_code(code: u16) -> bool {
    200 <= code < 300
}

/// Whether `code` is a success status (200 to 299).
pub fn is_success(code: u16) -> (r: bool)
    ensures
        r == is_success_code(code),
{
    200 <= code && code < 300
}

/// What stands in place of the reason phrase of a code without one.
pub open spec fn unknown_reason() -> Seq<char> {
    "<unknown status code>"@
}

/// A status as HTTP writes it: the decimal code, a space, the reason phrase.
pub open spec fn status_text_of(code: u16) -> Seq<char> {
    decimal_of(code as nat) + " "@ + match canonical_reason_of(code) {
        Some(reason) if 100 <= code <= 999 => reason,
        _ => unknown_reason(),
    }
}

/// Writes a status as HTTP does, such as `404 Not Found`.
pub fn status_text(code: u16) -> (r: String)
    ensures
        r@ == status_text_of(code),
{
    let reason = canonical_reason(code);
    proof {
        reveal_strlit("<unknown status code>");
    }
    let phrase: &str = match reason {
        Some(p) => p,
        None => "<unknown status code>",
    };
    decimal(code as u64).concat(" ").concat(phrase)
}

/// The written status begins with the status code's decimal digits.
pub proof fn lemma_status_text_starts_with_code(code: u16)
    ensures
        status_text_of(code).take(decimal_of(code as nat).len() as int) == decimal_of(code as nat),
{
    assert(status_text_of(code).take(decimal_of(code as nat).len() as int) =~= decimal_of(
        code as nat,
    ));
}

} // verus!
