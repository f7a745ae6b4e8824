//! Searching a line with a regular expression.
//!
//! The search itself is the work of the `regex` crate. What it finds is
//! handed on as plain strings, one for each capture group.

use vstd::prelude::*;

verus! {

/// What a search of one line with one pattern came to.
#[derive(Debug, Clone, PartialEq, Eq)]
pub enum Search {
    /// The pattern is no regular expression that the engine accepts.
    Invalid,
    /// The pattern matches nowhere in the line.
    Absent,
    /// The leftmost match: the text of each capture group in the order of
    /// their opening brackets, the whole match first. A group that took no
    /// part in the match has no text.
    Found(Vec<Option<String>>),
}

/// A `Search` with its texts as sequences of characters.
pub enum SearchView {
    Invalid,
    Absent,
    Found(Seq<Option<Seq<char>>>),
}

/// The texts of capture groups as sequences of characters.
pub open spec fn groups_view(groups: Seq<Option<String>>) -> Seq<Option<Seq<char>>> {
    Seq::new(
        groups.len(),
        |i: int|
            match groups[i] {
                Some(text) => Some(text@),
                None => None,
            },
    )
}

impl View for Search {
    type V = SearchView;

    open spec fn view(&self) -> SearchView {
        match self {
            Search::Invalid => SearchView::Invalid,
            Search::Absent => SearchView::Absent,
            Search::Found(groups) => SearchView::Found(groups_view(groups@)),
        }
    }
}

/// The text of group `i`, where the match has such a group and it took part.
pub open spec fn group_at(groups: Seq<Option<Seq<char>>>, i: int) -> Option<Seq<char>> {
    if 0 <= i < groups.len() {
        groups[i]
    } else {
        None
    }
}

/// What the `regex` crate finds when it compiles `pattern` and searches
/// `haystack` from its start.
pub uninterp spec fn regex_search(pattern: Seq<char>, haystack: Seq<char>) -> SearchView;

/// Compiles `pattern` with `regex::Regex::new` and searches `haystack` with
/// `regex::Regex::captures`.
///
/// Nothing is proved of this function. It is taken on trust that the outcome
/// depends on the two texts alone: `Invalid` where the engine rejects the
/// pattern, `Absent` where `captures` finds no match, and otherwise the
/// substring of each group of the match that `captures` reports.
#[verifier::external_body]
pub(crate) fn search(pattern: &str, haystack: &str) -> (found: Search)
    ensures
        found@ == regex_search(pattern@, haystack@),
{
    match regex::Regex::new(pattern) {
        Err(_) => Search::Invalid,
        Ok(re) => match re.captures(haystack) {
            None => Search::Absent,
            Some(caps) => Search::Found(
                caps.iter().map(|group| group.map(|m| m.as_str().to_string())).collect(),
            ),
        },
    }
}

/// The characters of group `i` of a match.
pub fn group_chars(groups: &Vec<Option<String>>, i: usize) -> (r: Option<Vec<char>>)
    ensures
        match group_at(groups_view(groups@), i as int) {
            Some(text) => r matches Some(chars) && chars@ == text,
            None => r is None,
        },
{
    if i < groups.len() {
        match &groups[i] {
            Some(text) => Some(crate::text::chars_of(text.as_str())),
            None => None,
        }
    } else {
        None
    }
}

} // verus!
