//! What is made of an environment variable once it has been looked up.

use crate::text::texts;
use vstd::prelude::*;

verus! {

/// Whether a character is white space, as `char::is_whitespace` says.
pub uninterp spec fn white_space(c: char) -> bool;

/// The parts that `str::split` finds in `text` between the occurrences of
/// `sep`, in order.
pub uninterp spec fn split_on(text: Seq<char>, sep: Seq<char>) -> Seq<Seq<char>>;

/// `text` without the white space at its start.
pub open spec fn trimmed_start(text: Seq<char>) -> Seq<char>
    decreases text.len(),
{
    if text.len() > 0 && white_space(text.first()) {
        trimmed_start(text.drop_first())
    } else {
        text
    }
}

/// `text` without the white space at its end.
pub open spec fn trimmed_end(text: Seq<char>) -> Seq<char>
    decreases text.len(),
{
    if text.len() > 0 && white_space(text.last()) {
        trimmed_end(text.drop_last())
    } else {
        text
    }
}

/// `text` without the white space at its start and at its end.
pub open spec fn trimmed(text: Seq<char>) -> Seq<char> {
    trimmed_end(trimmed_start(text))
}

/// The items of a list that is written as one text: none where the text is
/// white space only, else the parts between the separators, each without the
/// white space around it.
pub open spec fn items(text: Seq<char>, sep: Seq<char>) -> Seq<Seq<char>> {
    if trimmed(text).len() == 0 {
        Seq::empty()
    } else {
        split_on(trimmed(text), sep).map_values(|part: Seq<char>| trimmed(part))
    }
}

/// Calls `str::trim`: the result is the text without its leading and
/// trailing characters that `char::is_whitespace` holds of.
#[verifier::external_body]
fn trim(text: &str) -> (r: String)
    ensures
        r@ == trimmed(text@),
        r@.len() > 0 ==> !white_space(r@.first()) && !white_space(r@.last()),
{
    text.trim().to_string()
}

/// Calls `str::split` with a string as the pattern and hands out the parts
/// it finds, in order.
#[verifier::external_body]
fn split(text: &str, sep: &str) -> (parts: Vec<String>)
    ensures
        texts(parts@) == split_on(text@, sep@),
{
    text.split(sep).map(|part| part.to_string()).collect()
}

/// What looking up an environment variable gave.
#[derive(Debug, Clone, PartialEq, Eq)]
pub enum Lookup {
    /// The variable is set to this text.
    Found(String),
    /// The variable is not set.
    NotPresent,
    /// The variable is set to something that is no valid Unicode.
    NotUnicode,
}

/// The variable's text, where it is set to one.
pub fn string(found: Lookup) -> (r: Option<String>)
    ensures
        r == match found {
            Lookup::Found(text) => Some(text),
            _ => None::<String>,
        },
{
    match found {
        Lookup::Found(text) => Some(text),
        _ => None,
    }
}

/// The variable's text as `parser` reads it, where the variable is set to a
/// text.
pub fn parse<T, E, F: FnOnce(String) -> Result<T, E>>(found: Lookup, parser: F) -> (r: Option<
    Result<T, E>,
>)
    requires
        found matches Lookup::Found(text) ==> call_requires(parser, (text,)),
    ensures
        match found {
            Lookup::Found(text) => r matches Some(parsed) && call_ensures(parser, (text,), parsed),
            _ => r is None,
        },
{
    match found {
        Lookup::Found(text) => Some(parser(text)),
        _ => None,
    }
}

/// The items of a text that lists them between separators.
pub fn split_trimmed(text: &str, sep: &str) -> (r: Vec<String>)
    ensures
        texts(r@) == items(text@, sep@),
{
    let text = trim(text);
    if text.as_str().is_empty() {
        Vec::new()
    } else {
        let parts = split(text.as_str(), sep);
        let mut r: Vec<String> = Vec::new();
        let mut i: usize = 0;
        while i < parts.len()
            invariant
                i <= parts.len(),
                r@.len() == i,
                forall|j: int| 0 <= j < i ==> (#[trigger] r@[j])@ == trimmed(parts@[j]@),
            decreases parts.len() - i,
        {
            r.push(trim(parts[i].as_str()));
            i += 1;
        }
        assert(texts(r@) =~= texts(parts@).map_values(|part: Seq<char>| trimmed(part)));
        r
    }
}

/// The variable's text as a list of items, where the variable is set to a
/// text.
pub fn strings(found: Lookup, sep: &str) -> (r: Option<Vec<String>>)
    ensures
        match found {
            Lookup::Found(text) => r matches Some(list) && texts(list@) == items(text@, sep@),
            _ => r is None,
        },
{
    match found {
        Lookup::Found(text) => Some(split_trimmed(text.as_str(), sep)),
        _ => None,
    }
}

} // verus!
