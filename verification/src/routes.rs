//! Request-boundary decisions: recognizing the alias path components that
//! redirect to the current timestamp, and building the redirect target.
//!
//! A request for `/{value}.{ext}` where `value` is the literal `epoch` or
//! `latest` is answered with a redirect to the same path with `value`
//! replaced by the current decimal timestamp, preserving any query string.

use crate::text::str_eq;
use vstd::prelude::*;
use vstd::string::StringExecFns;

verus! {

/// Whether a path value is one of the aliases for the current timestamp.
pub open spec fn spec_is_alias(s: Seq<char>) -> bool {
    s == "epoch"@ || s == "latest"@
}

/// Recognizes the alias path values `epoch` and `latest`.
pub fn is_alias(s: &str) -> (r: bool)
    ensures
        r == spec_is_alias(s@),
{
    str_eq(s, "epoch") || str_eq(s, "latest")
}

/// The redirect target `/{value}.{ext}`, with the query string appended
/// after a `?` when one is present.
pub open spec fn spec_redirect_path(value: Seq<char>, ext: Seq<char>, query: Seq<char>) -> Seq<
    char,
> {
    let base = "/"@ + value + "."@ + ext;
    if query.len() == 0 {
        base
    } else {
        base + "?"@ + query
    }
}

/// Builds the redirect target for an alias request: the same path with the
/// alias replaced by `value`, preserving the query string.
pub fn redirect_path(value: &str, ext: &str, query: &str) -> (r: String)
    ensures
        r@ == spec_redirect_path(value@, ext@, query@),
{
    let mut s = String::from_str("/");
    s.append(value);
    s.append(".");
    s.append(ext);
    if !query.is_empty() {
        s.append("?");
        s.append(query);
    }
    s
}

} // verus!
