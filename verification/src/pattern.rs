//! Regular-expression searches, carried out by the `regex` crate.
//!
//! Nothing in this module is proved. Each function is a thin call into
//! `regex` whose contract gives the call's result a name, so that the rest
//! of the crate can state exactly what it does with that result.

use vstd::prelude::*;

verus! {

/// What `regex` finds when it compiles `pattern` with its default settings
/// and walks `haystack` from left to right: `None` when the pattern does not
/// compile, otherwise the text of each successive non-overlapping match.
pub uninterp spec fn matches_of(pattern: Seq<char>, haystack: Seq<char>) -> Option<Seq<Seq<char>>>;

/// What `regex` captures in group `group` of the leftmost match of `pattern`
/// in `haystack`: `None` when the pattern does not compile, `Some(None)` when
/// nothing matches or the group took no part in the match.
pub uninterp spec fn capture_of(pattern: Seq<char>, haystack: Seq<char>, group: nat) -> Option<
    Option<Seq<char>>,
>;

/// The texts of a list of strings.
pub open spec fn texts(items: Seq<String>) -> Seq<Seq<char>> {
    items.map_values(|s: String| s@)
}

/// Calls `regex::Regex::new` on `pattern` and `Regex::captures_iter` on
/// `haystack`, and hands out the whole text of each match in order.
///
/// Trusted: the outcome is exactly `matches_of(pattern, haystack)`, and the
/// call fails only when the pattern does not compile; it then hands out the
/// text of the compile error, of which nothing is claimed.
#[verifier::external_body]
pub(crate) fn find_all(pattern: &str, haystack: &str) -> (found: Result<Vec<String>, String>)
    ensures
        found is Ok <==> matches_of(pattern@, haystack@) is Some,
        found matches Ok(items) ==> matches_of(pattern@, haystack@) == Some(texts(items@)),
{
    let compiled = regex::Regex::new(pattern).map_err(|fault| fault.to_string())?;
    Ok(compiled.captures_iter(haystack).map(|found| found[0].to_string()).collect())
}

/// Calls `regex::Regex::new` on `pattern` and `Regex::captures` on
/// `haystack`, and hands out the text of capture group `group` of the
/// leftmost match.
///
/// Trusted: the outcome is exactly `capture_of(pattern, haystack, group)`,
/// and the call fails only when the pattern does not compile; it then hands
/// out the text of the compile error, of which nothing is claimed.
#[verifier::external_body]
pub(crate) fn first_capture(pattern: &str, haystack: &str, group: usize) -> (found: Result<
    Option<String>,
    String,
>)
    ensures
        found is Ok <==> capture_of(pattern@, haystack@, group as nat) is Some,
        found matches Ok(Some(text)) ==> capture_of(pattern@, haystack@, group as nat) == Some(
            Some(text@),
        ),
        found matches Ok(None) ==> capture_of(pattern@, haystack@, group as nat) == Some(
            None::<Seq<char>>,
        ),
{
    let compiled = regex::Regex::new(pattern).map_err(|fault| fault.to_string())?;
    Ok(compiled.captures(haystack).and_then(|found| found.get(group)).map(|m| m.as_str().to_string()))
}

} // verus!
