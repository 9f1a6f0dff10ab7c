//! The calls into the regular-expression, arithmetic-expression and JSON
//! parsers that the classifiers rely on.
use vstd::prelude::*;

verus! {

/// Whether `pattern` compiles (`Some`) and, if so, whether it matches somewhere in `text`.
pub uninterp spec fn regex_search(pattern: Seq<char>, text: Seq<char>) -> Option<bool>;

/// The text of capture group 1 of the first match of `pattern` in `text`,
/// when the pattern compiles, matches and that group took part.
pub uninterp spec fn regex_group(pattern: Seq<char>, text: Seq<char>) -> Option<Seq<char>>;

/// Whether evalexpr builds an operator tree from `text`.
pub uninterp spec fn parses_as_expression(text: Seq<char>) -> bool;

/// The list of strings that `text` holds as a JSON array of strings, if it does.
pub uninterp spec fn json_string_list(text: Seq<char>) -> Option<Seq<Seq<char>>>;

/// `pattern` compiles and matches somewhere in `text`.
pub open spec fn regex_hit(pattern: Seq<char>, text: Seq<char>) -> bool {
    regex_search(pattern, text) == Some(true)
}

/// Relies on `regex::Regex::new` to compile the pattern (an error for an
/// invalid one) and `regex::Regex::is_match` to search the text.
#[verifier::external_body]
fn regex_is_match(pattern: &str, text: &str) -> (r: Option<bool>)
    ensures
        r == regex_search(pattern@, text@),
{
    regex::Regex::new(pattern).ok().map(|re| re.is_match(text))
}

/// Whether `pattern` is valid and matches somewhere in `text`.
pub fn matches_pattern(pattern: &str, text: &str) -> (r: bool)
    ensures
        r == regex_hit(pattern@, text@),
{
    match regex_is_match(pattern, text) {
        Some(b) => b,
        None => false,
    }
}

/// Relies on `regex::Regex::new` and `regex::Regex::captures`: the text of
/// group 1 in the first match.
#[verifier::external_body]
pub(crate) fn regex_first_group(pattern: &str, text: &str) -> (r: Option<String>)
    ensures
        match r {
            Some(g) => regex_group(pattern@, text@) == Some(g@),
            None => regex_group(pattern@, text@) is None,
        },
{
    regex::Regex::new(pattern).ok().and_then(|re| re.captures(text)).and_then(
        |caps| caps.get(1).map(|m| m.as_str().to_string()),
    )
}

/// Longest text handed to the expression parser, in characters. The parser
/// recurses once per nested operator, so its input stays short.
pub const MAX_EXPRESSION_CHARS: usize = 1000;

/// Relies on `evalexpr::build_operator_tree`: whether the text is a
/// well-formed expression. The length bound keeps its recursion shallow.
#[verifier::external_body]
pub(crate) fn is_expression(text: &str) -> (r: bool)
    requires
        text@.len() <= MAX_EXPRESSION_CHARS,
    ensures
        r == parses_as_expression(text@),
{
    evalexpr::build_operator_tree::<evalexpr::DefaultNumericTypes>(text).is_ok()
}

/// Relies on `serde_json::from_str` for `Vec<String>`: the strings of a JSON
/// array of strings.
#[verifier::external_body]
pub(crate) fn parse_string_list(text: &str) -> (r: Option<Vec<String>>)
    ensures
        match r {
            Some(v) => json_string_list(text@) == Some(v@.map_values(|s: String| s@)),
            None => json_string_list(text@) is None,
        },
{
    serde_json::from_str::<Vec<String>>(text).ok()
}

} // verus!
