//! Regular-expression matching for the `pattern` rules, done by the `regex`
//! crate.
use vstd::prelude::*;

verus! {

/// The message (`to_string`) of the error that `regex::Regex::new` returns
/// for `pattern`, or `None` when it accepts the pattern.
pub uninterp spec fn regex_compile_error(pattern: Seq<char>) -> Option<Seq<char>>;

/// Whether `regex::Regex::new` accepts `pattern`.
pub open spec fn regex_compiles(pattern: Seq<char>) -> bool {
    regex_compile_error(pattern) is None
}

/// Whether the `regex::Regex` compiled from `pattern` matches somewhere in
/// `haystack` (`Regex::is_match`).
pub uninterp spec fn regex_matches(pattern: Seq<char>, haystack: Seq<char>) -> bool;

/// Whether `regex::bytes::Regex::new` accepts `pattern`.
pub uninterp spec fn bytes_regex_compiles(pattern: Seq<char>) -> bool;

/// Whether the `regex::bytes::Regex` compiled from `pattern` matches
/// somewhere in `haystack` (`Regex::is_match`).
pub uninterp spec fn bytes_regex_matches(pattern: Seq<char>, haystack: Seq<u8>) -> bool;

/// Compiles `pattern` with `regex::Regex::new` and, when it compiles, asks
/// `Regex::is_match` whether it matches `haystack`; when it does not, hands
/// back the message of the compiler's error. The contract claims only that
/// the result is an error exactly when the pattern does not compile, and
/// otherwise names both results; they depend on the pattern and the
/// haystack alone.
#[verifier::external_body]
pub(crate) fn regex_is_match(pattern: &str, haystack: &str) -> (r: Result<bool, String>)
    ensures
        r is Ok <==> regex_compiles(pattern@),
        r matches Ok(b) ==> b == regex_matches(pattern@, haystack@),
        r matches Err(e) ==> regex_compile_error(pattern@) == Some(e@),
{
    match ::regex::Regex::new(pattern) {
        Ok(re) => Ok(re.is_match(haystack)),
        Err(e) => Err(e.to_string()),
    }
}

/// Compiles `pattern` with `regex::bytes::Regex::new` and, when it compiles,
/// asks `Regex::is_match` whether it matches `haystack`. The contract claims
/// only that the result is `None` exactly when the pattern does not compile,
/// and otherwise the named result of the match.
#[verifier::external_body]
pub(crate) fn bytes_regex_is_match(pattern: &str, haystack: &[u8]) -> (r: Option<bool>)
    ensures
        r is Some <==> bytes_regex_compiles(pattern@),
        r matches Some(b) ==> b == bytes_regex_matches(pattern@, haystack@),
{
    match ::regex::bytes::Regex::new(pattern) {
        Ok(re) => Some(re.is_match(haystack)),
        Err(_) => None,
    }
}

} // verus!
