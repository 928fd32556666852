//! Strings as the texts they hold.

use vstd::prelude::*;

verus! {

/// The texts that a list of strings holds.
pub open spec fn texts(strings: Seq<String>) -> Seq<Seq<char>> {
    strings.map_values(|s: String| s@)
}

/// The texts that the values of a map of strings hold.
pub open spec fn text_values(strings: Map<Seq<char>, String>) -> Map<Seq<char>, Seq<char>> {
    strings.map_values(|s: String| s@)
}

/// The texts that the values of a map of lists of strings hold.
pub open spec fn text_lists(lists: Map<Seq<char>, Vec<String>>) -> Map<Seq<char>, Seq<Seq<char>>> {
    lists.map_values(|list: Vec<String>| texts(list@))
}

} // verus!
