//! Regular expressions: the boundary to the `regex` crate.
//!
//! Compiling and matching are the crate's work and are not proved here. Each
//! result is given a name over the pattern and the text, so that the checks
//! built on them can say exactly which outcome follows from which result.
//! Nothing is said on which patterns compile or what they match.

use vstd::prelude::*;

verus! {

/// The message of the error with which `Regex::new` refuses a pattern, and
/// `None` for a pattern that compiles.
pub uninterp spec fn pattern_fault(pattern: Seq<char>) -> Option<Seq<char>>;

/// Whether `Regex::is_match` finds a match of the pattern anywhere in the
/// text. It has a meaning for patterns that compile.
pub uninterp spec fn matched(pattern: Seq<char>, text: Seq<char>) -> bool;

/// What the capture group of the given index holds in the leftmost match of
/// the pattern in the text, as `Regex::captures` finds it: `None` where there
/// is no match, `Some(None)` where the pattern has no such group or the group
/// took no part in the match. It has a meaning for patterns that compile.
pub uninterp spec fn captured(pattern: Seq<char>, text: Seq<char>, index: nat) -> Option<
    Option<Seq<char>>,
>;

/// The characters that have a meaning of their own in a pattern.
pub open spec fn is_meta(c: char) -> bool {
    c == '\\' || c == '.' || c == '+' || c == '*' || c == '?' || c == '(' || c == ')' || c == '|'
        || c == '[' || c == ']' || c == '{' || c == '}' || c == '^' || c == '$' || c == '#' || c
        == '&' || c == '-' || c == '~'
}

/// `text` with a backslash before each character that has a meaning in a
/// pattern.
pub open spec fn escaped(text: Seq<char>) -> Seq<char>
    decreases text.len(),
{
    if text.len() == 0 {
        Seq::empty()
    } else if is_meta(text.last()) {
        escaped(text.drop_last()).push('\\').push(text.last())
    } else {
        escaped(text.drop_last()).push(text.last())
    }
}

/// `regex::escape`: a backslash is put before each meta character, and
/// nothing else changes.
pub assume_specification[ regex::escape ](pattern: &str) -> (r: String)
    ensures
        r@ == escaped(pattern@),
;

/// `Regex::new`, then `Regex::is_match`: whether the pattern matches
/// anywhere in the text, or the message of the error where the pattern does
/// not compile. Both depend on the pattern and the text alone.
#[verifier::external_body]
pub(crate) fn is_match(pattern: &str, text: &str) -> (r: Result<bool, String>)
    ensures
        match r {
            Ok(found) => pattern_fault(pattern@) is None && found == matched(pattern@, text@),
            Err(message) => pattern_fault(pattern@) == Some(message@),
        },
{
    match regex::Regex::new(pattern) {
        Ok(re) => Ok(re.is_match(text)),
        Err(e) => Err(e.to_string()),
    }
}

/// `Regex::new`, then `Regex::captures`, `Captures::get` and `Match::as_str`:
/// the text of the group of the given index in the leftmost match, or the
/// message of the error where the pattern does not compile.
#[verifier::external_body]
pub(crate) fn capture_group(pattern: &str, text: &str, index: usize) -> (r: Result<
    Option<Option<String>>,
    String,
>)
    ensures
        match r {
            Ok(None) => pattern_fault(pattern@) is None && captured(pattern@, text@, index as nat)
                is None,
            Ok(Some(None)) => pattern_fault(pattern@) is None && captured(
                pattern@,
                text@,
                index as nat,
            ) == Some(None::<Seq<char>>),
            Ok(Some(Some(group))) => pattern_fault(pattern@) is None && captured(
                pattern@,
                text@,
                index as nat,
            ) == Some(Some(group@)),
            Err(message) => pattern_fault(pattern@) == Some(message@),
        },
{
    match regex::Regex::new(pattern) {
        Ok(re) => Ok(re.captures(text).map(|caps| caps.get(index).map(|m| m.as_str().to_string()))),
        Err(e) => Err(e.to_string()),
    }
}

} // verus!
