//! Redacting bearer tokens for log lines.
//!
//! The credential provider fetches a short-lived token for the broker
//! connection on the host's side. For operability a redacted form is
//! logged: the first and last six characters around an ellipsis, never
//! the token itself.

use vstd::prelude::*;
use vstd::string::is_ascii;
use vstd::string::StrSliceExecFns;
use vstd::string::StringExecFns;

verus! {

/// The redacted form of `token`: its first six and last six characters
/// joined by `...`; nothing else of the token appears in the result.
pub open spec fn spec_redacted(token: Seq<char>) -> Seq<char> {
    token.subrange(0, 6) + "..."@ + token.subrange(token.len() - 6, token.len() as int)
}

/// Redacts a bearer token for a log line.
pub fn redact_token(token: &str) -> (r: String)
    requires
        is_ascii(token),
        token@.len() >= 6,
    ensures
        r@ == spec_redacted(token@),
{
    let n = token.unicode_len();
    let prefix = token.substring_ascii(0, 6);
    let suffix = token.substring_ascii(n - 6, n);
    String::from_str(prefix).concat("...").concat(suffix)
}

} // verus!
