//! Regular expressions, for the shapes whose classes of characters are
//! Unicode's own: the search is the `regex` crate's, and taken on trust.

use vstd::prelude::*;

verus! {

/// What the first match of the regular expression `pattern` in `haystack`
/// captures, as the `regex` crate finds it. `None` where the crate refuses
/// the pattern, as ill-formed or as too large; `Some(None)` where nothing
/// matches; else the groups in the order of their opening brackets, the whole
/// match first, each with the text it took or `None` where it took no part.
pub uninterp spec fn regex_captures(pattern: Seq<char>, haystack: Seq<char>) -> Option<
    Option<Seq<Option<Seq<char>>>>,
>;

/// Compiles `pattern` with `regex::Regex::new` and searches `haystack` with
/// `regex::Regex::captures`. Nothing of this is proved: the result is taken
/// to depend on the two texts alone, and is known by the name
/// `regex_captures`.
#[verifier::external_body]
pub(crate) fn captures(pattern: &str, haystack: &str) -> (found: Option<
    Option<Vec<Option<String>>>,
>)
    ensures
        found.deep_view() == regex_captures(pattern@, haystack@),
{
    match regex::Regex::new(pattern) {
        Ok(compiled) => Some(
            compiled.captures(haystack).map(
                |groups|
                    groups.iter().map(|group| group.map(|found| found.as_str().to_string())).collect(),
            ),
        ),
        Err(_) => None,
    }
}

} // verus!
