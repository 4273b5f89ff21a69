//! Text replacement, by pattern and by plain text.

use vstd::prelude::*;

verus! {

/// The text in which every match of the regular expression `pattern` in
/// `haystack`, from left to right and without overlap, is replaced by
/// `replacement`, in which `$1` stands for what the first group matched;
/// `None` if `pattern` does not compile to a regular expression.
pub uninterp spec fn spec_regex_replace_all(
    pattern: Seq<char>,
    haystack: Seq<char>,
    replacement: Seq<char>,
) -> Option<Seq<char>>;

/// The text in which all matches of the plain text `from` in `text` are
/// replaced by `to`.
pub uninterp spec fn spec_str_replace(text: Seq<char>, from: Seq<char>, to: Seq<char>) -> Seq<
    char,
>;

/// The mathematical value of a text that may be missing.
pub open spec fn text_option(o: Option<String>) -> Option<Seq<char>> {
    match o {
        Some(text) => Some(text@),
        None => None,
    }
}

/// Replaces every match of a regular expression in a text.
///
/// Compiles `pattern` with `regex::Regex::new` and calls
/// `regex::Regex::replace_all`. The contract names the result, which depends
/// on the three texts alone; it is `None` where the pattern does not compile.
#[verifier::external_body]
pub(crate) fn regex_replace_all(pattern: &str, haystack: &str, replacement: &str) -> (out: Option<
    String,
>)
    ensures
        text_option(out) == spec_regex_replace_all(pattern@, haystack@, replacement@),
{
    match regex::Regex::new(pattern) {
        Ok(re) => Some(re.replace_all(haystack, replacement).into_owned()),
        Err(_) => None,
    }
}

/// Replaces all matches of a plain text in another.
///
/// Calls `str::replace`. The contract names the result, which depends on
/// the three texts alone.
#[verifier::external_body]
pub(crate) fn str_replace(text: &str, from: &str, to: &str) -> (out: String)
    ensures
        out@ == spec_str_replace(text@, from@, to@),
{
    text.replace(from, to)
}

} // verus!
