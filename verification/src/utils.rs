//! Finding the identifier of a video in the location that the player plays.

use vstd::prelude::*;
use crate::text::text_of;

verus! {

/// The pattern that finds the identifier of a video in a YouTube address.
pub const YOUTUBE_PATTERN: &'static str =
    "https?://(?:(?:www\\.|m\\.|)youtube\\.com|(?:www\\.|)youtu\\.be).*(?:/|%3D|v=|vi=)([0-9A-z-_]{11})(?:[%#?&]|$)";

/// What the first capture group of the regular expression `pattern` holds at
/// the leftmost match in `text`.  `None` if the pattern matches nowhere or if
/// the group took no part in the match.
pub uninterp spec fn first_group(pattern: Seq<char>, text: Seq<char>) -> Option<Seq<char>>;

/// Whether `pattern` is a regular expression that the engine accepts.
pub uninterp spec fn is_pattern(pattern: Seq<char>) -> bool;

/// `text` with every character that has a meaning in a regular expression
/// escaped, so that as a pattern it matches `text` and nothing else.
pub uninterp spec fn literal_pattern(text: Seq<char>) -> Seq<char>;

/// Searches `text` with the regular expression `pattern` and hands out what
/// its first group captured.
///
/// Trusted: calls `regex::Regex::new`, and on the expression it gives
/// `Regex::captures` and `Captures::get`.  The contract only names the
/// results, which depend on the two texts alone: whether the engine accepts
/// the pattern (`None` if it does not), and what the group holds.
#[verifier::external_body]
pub(crate) fn capture_first_group(pattern: &str, text: &str) -> (found: Option<Option<String>>)
    ensures
        found is Some == is_pattern(pattern@),
        found matches Some(group) ==> text_of(group) == first_group(pattern@, text@),
{
    let regex = regex::Regex::new(pattern).ok()?;
    Some(regex.captures(text).and_then(|c| c.get(1)).map(|m| m.as_str().to_string()))
}

/// What is found in `text` with `pattern`: the first group of the leftmost
/// match, and nothing where the pattern is no regular expression.
pub open spec fn found_in(pattern: Seq<char>, text: Seq<char>) -> Option<Seq<char>> {
    if is_pattern(pattern) {
        first_group(pattern, text)
    } else {
        None
    }
}

/// Searches `text` with `pattern`; a pattern that the engine refuses finds
/// nothing.
pub fn find_first_group(pattern: &str, text: &str) -> (found: Option<String>)
    ensures
        text_of(found) == found_in(pattern@, text@),
{
    match capture_first_group(pattern, text) {
        Some(group) => group,
        None => None,
    }
}

/// Whether the engine accepts `pattern` as a regular expression.
pub fn pattern_compiles(pattern: &str) -> (accepted: bool)
    ensures
        accepted == is_pattern(pattern@),
{
    capture_first_group(pattern, "").is_some()
}

/// Escapes `text` for use inside a pattern.
///
/// Trusted: calls `regex::escape`.  The contract only names the result.
#[verifier::external_body]
pub(crate) fn escape_pattern(text: &str) -> (escaped: String)
    ensures
        escaped@ == literal_pattern(text@),
{
    regex::escape(text)
}

/// The identifier of the YouTube video at `path`; `None` if the path is not
/// the address of one.
pub fn get_youtube_id(path: &str) -> (id: Option<String>)
    ensures
        text_of(id) == found_in(YOUTUBE_PATTERN@, path@),
{
    find_first_group(YOUTUBE_PATTERN, path)
}

} // verus!
