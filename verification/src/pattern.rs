//! Searching a text for a regular expression.

use vstd::prelude::*;

verus! {

/// The matches that `regex::Regex::find_iter` yields for the expression
/// `pattern` in `text`, each as the byte offsets of its start and its end;
/// `None` where `regex::Regex::new` refuses the expression.
pub uninterp spec fn regex_spans(pattern: Seq<char>, text: Seq<char>) -> Option<
    Seq<(usize, usize)>,
>;

/// The match that `regex::Regex::find` gives for the expression `pattern` in
/// `text`, as the byte offsets of its start and its end; `None` where
/// `regex::Regex::new` refuses the expression.
pub uninterp spec fn regex_first(pattern: Seq<char>, text: Seq<char>) -> Option<
    Option<(usize, usize)>,
>;

/// Compiles `pattern` with `regex::Regex::new` and collects the matches of
/// `Regex::find_iter` in `text`, each as `Match::start` and `Match::end`.
/// The result is a function of the two texts, which [`regex_spans`] names.
#[verifier::external_body]
pub(crate) fn find_spans(pattern: &str, text: &str) -> (spans: Option<Vec<(usize, usize)>>)
    ensures
        spans is Some <==> regex_spans(pattern@, text@) is Some,
        spans matches Some(v) ==> regex_spans(pattern@, text@) == Some(v@),
{
    match regex::Regex::new(pattern) {
        Ok(re) => Some(re.find_iter(text).map(|m| (m.start(), m.end())).collect()),
        Err(_) => None,
    }
}

/// Compiles `pattern` with `regex::Regex::new` and takes the match of
/// `Regex::find` in `text`, as `Match::start` and `Match::end`. The result
/// is a function of the two texts, which [`regex_first`] names.
#[verifier::external_body]
pub(crate) fn find_first(pattern: &str, text: &str) -> (span: Option<Option<(usize, usize)>>)
    ensures
        span == regex_first(pattern@, text@),
{
    match regex::Regex::new(pattern) {
        Ok(re) => Some(re.find(text).map(|m| (m.start(), m.end()))),
        Err(_) => None,
    }
}

} // verus!
