//! Regular-expression replacement through the `regex` crate.

use vstd::prelude::*;

use crate::text::copy_str;

verus! {

#[verifier::external_type_specification]
#[verifier::external_body]
pub struct ExRegex(regex::Regex);

/// Whether `regex::Regex::new` accepts the pattern.
pub uninterp spec fn regex_compiles(pattern: Seq<char>) -> bool;

/// What `Regex::replace_all(haystack, replacement)` returns for the regex
/// compiled from `pattern`: every non-overlapping match, from left to right,
/// replaced by `replacement` with `$name` / `${n}` groups expanded.
pub uninterp spec fn regex_replace_all(
    pattern: Seq<char>,
    haystack: Seq<char>,
    replacement: Seq<char>,
) -> Seq<char>;

/// Whether the regex compiled from `pattern` matches somewhere in
/// `haystack` (`Regex::is_match`).
pub uninterp spec fn regex_is_match(pattern: Seq<char>, haystack: Seq<char>) -> bool;

/// The text of the capture group named `group` in the first match of the
/// regex compiled from `pattern` in `haystack` (`Regex::captures` then
/// `Captures::name`); `None` when there is no match or the group did not
/// take part.
pub uninterp spec fn regex_group(pattern: Seq<char>, haystack: Seq<char>, group: Seq<char>) -> Option<
    Seq<char>,
>;

/// What `Regex::replace(haystack, replacement)` returns: the first match
/// replaced by `replacement` with `$name` / `${n}` groups expanded.
pub uninterp spec fn regex_replace_first(
    pattern: Seq<char>,
    haystack: Seq<char>,
    replacement: Seq<char>,
) -> Seq<char>;

/// A compiled regular expression together with its source text.
pub struct Pattern {
    source: String,
    regex: regex::Regex,
}

impl Pattern {
    pub closed spec fn source(&self) -> Seq<char> {
        self.source@
    }
}

/// Calls `regex::Regex::new`. The contract claims only that it succeeds
/// exactly for the patterns that `regex_compiles` names.
#[verifier::external_body]
fn compile_regex(pattern: &str) -> (out: Option<regex::Regex>)
    ensures
        out is Some <==> regex_compiles(pattern@),
{
    regex::Regex::new(pattern).ok()
}

/// Compiles `pattern`; `None` when the regex crate rejects it.
pub fn compile(pattern: &str) -> (out: Option<Pattern>)
    ensures
        out is Some <==> regex_compiles(pattern@),
        out matches Some(p) ==> p.source() == pattern@,
{
    match compile_regex(pattern) {
        Some(regex) => Some(Pattern { source: copy_str(pattern), regex }),
        None => None,
    }
}

/// Calls `Regex::replace_all(haystack, replacement)` and returns the owned
/// text. The contract claims that the result is the named function of the
/// pattern, the haystack and the replacement.
#[verifier::external_body]
pub(crate) fn replace_all(pattern: &Pattern, haystack: &str, replacement: &str) -> (out: String)
    ensures
        out@ == regex_replace_all(pattern.source(), haystack@, replacement@),
{
    pattern.regex.replace_all(haystack, replacement).into_owned()
}

/// Calls `Regex::is_match(haystack)`. The contract claims that the answer is
/// the named function of the pattern and the haystack.
#[verifier::external_body]
pub(crate) fn is_match(pattern: &Pattern, haystack: &str) -> (out: bool)
    ensures
        out == regex_is_match(pattern.source(), haystack@),
{
    pattern.regex.is_match(haystack)
}

/// Calls `Regex::captures(haystack)` and `Captures::name(group)`.
#[verifier::external_body]
pub(crate) fn capture_group(pattern: &Pattern, haystack: &str, group: &str) -> (out: Option<String>)
    ensures
        match out {
            Some(s) => regex_group(pattern.source(), haystack@, group@) == Some(s@),
            None => regex_group(pattern.source(), haystack@, group@) is None,
        },
{
    pattern.regex.captures(haystack).and_then(|captures| captures.name(group).map(|m| m.as_str().to_string()))
}

/// Calls `Regex::replace(haystack, replacement)` and returns the owned text.
#[verifier::external_body]
pub(crate) fn replace_first(pattern: &Pattern, haystack: &str, replacement: &str) -> (out: String)
    ensures
        out@ == regex_replace_first(pattern.source(), haystack@, replacement@),
{
    pattern.regex.replace(haystack, replacement).into_owned()
}

} // verus!
