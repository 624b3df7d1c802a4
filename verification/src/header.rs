//! Which texts can be sent as an HTTP header value, as `reqwest` decides it.
use vstd::prelude::*;

verus! {

/// Whether `reqwest::header::HeaderValue::from_str` accepts the text: every
/// character is a tab, or at least a space and not DEL (characters beyond ASCII
/// are written as bytes of 128 and above, which are accepted).
pub open spec fn header_text_valid(s: Seq<char>) -> bool {
    forall|i: int| 0 <= i < s.len() ==> (s[i] == '\t' || ((s[i] as int) >= 32 && (s[i] as int) != 127))
}

/// Calls `reqwest::header::HeaderValue::from_str(s)` and keeps only whether it
/// succeeded, and the error's text where it did not. Claims that it succeeds
/// exactly on the texts that `header_text_valid` describes (its check in the
/// `http` crate, `is_valid`, on each byte), and that its error reads
/// `failed to parse header value`.
#[verifier::external_body]
pub(crate) fn check_header_value(s: &str) -> (r: Result<(), String>)
    ensures
        r is Ok <==> header_text_valid(s@),
        r matches Err(m) ==> m@ == "failed to parse header value"@,
{
    match reqwest::header::HeaderValue::from_str(s) {
        Ok(_) => Ok(()),
        Err(e) => Err(e.to_string()),
    }
}

} // verus!
