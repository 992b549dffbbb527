//! The regular-expression engine, as far as this crate relies on it.
//!
//! Nothing in this file is proved: each item states what the `regex` crate
//! does, and the rest of the crate is verified against these statements.

use vstd::prelude::*;

verus! {

/// The error of the `regex` crate, carried through unread.
#[verifier::external_type_specification]
#[verifier::external_body]
pub struct ExRegexError(regex::Error);

/// Whether a character has a meaning of its own in a pattern.
pub open spec fn is_meta(c: char) -> bool {
    c == '\\' || c == '.' || c == '+' || c == '*' || c == '?' || c == '(' || c == ')' || c == '|'
        || c == '[' || c == ']' || c == '{' || c == '}' || c == '^' || c == '$' || c == '#' || c
        == '&' || c == '-' || c == '~'
}

/// A text with a backslash put before each of its meta characters.
pub open spec fn escaped(text: Seq<char>) -> Seq<char>
    decreases text.len(),
{
    if text.len() == 0 {
        Seq::<char>::empty()
    } else if is_meta(text.last()) {
        escaped(text.drop_last()).push('\\').push(text.last())
    } else {
        escaped(text.drop_last()).push(text.last())
    }
}

/// Whether the engine accepts a pattern: `regex::Regex::new` returns `Ok`.
pub uninterp spec fn compiles(pattern: Seq<char>) -> bool;

/// What a search for an accepted pattern in a line finds: `None` where the
/// line has no match, else what the first capture group of the leftmost match
/// holds, `Some(None)` where the group took no part in it.
pub uninterp spec fn first_group(pattern: Seq<char>, line: Seq<char>) -> Option<Option<Seq<char>>>;

/// The characters of a search result.
pub open spec fn group_view(found: Option<Option<String>>) -> Option<Option<Seq<char>>> {
    match found {
        None => None,
        Some(None) => Some(None),
        Some(Some(text)) => Some(Some(text@)),
    }
}

/// Calls `regex::escape`. Trusted: the result is the text with a backslash
/// before each character that `regex_syntax::is_meta_character` accepts, and
/// every other character unchanged.
#[verifier::external_body]
pub(crate) fn escape(text: &str) -> (quoted: String)
    ensures
        quoted@ == escaped(text@),
{
    regex::escape(text)
}

/// Compiles a pattern with `regex::Regex::new` and searches a line with
/// `Regex::captures`, handing out group 1 of the match. Trusted: the call
/// fails exactly on the patterns the engine rejects, and its result depends
/// on the pattern and the line alone.
///
/// The pattern is compiled at every call. A compiled engine is opaque to the
/// proofs: kept between calls, nothing would tie it to the pattern it was
/// made from, and the contract could not speak of the pattern.
#[verifier::external_body]
pub(crate) fn search(pattern: &str, line: &str) -> (found: Result<
    Option<Option<String>>,
    regex::Error,
>)
    ensures
        found is Ok <==> compiles(pattern@),
        found matches Ok(groups) ==> group_view(groups) == first_group(pattern@, line@),
{
    let engine = regex::Regex::new(pattern)?;
    Ok(engine.captures(line).map(|groups| groups.get(1).map(|word| word.as_str().to_owned())))
}

} // verus!
