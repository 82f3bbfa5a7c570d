//! From a search string to the query that goes to the directory, and from the
//! directory's answer to the records that the search works on.

use vstd::prelude::*;
use crate::text::{lowercase_of, split_words, to_lowercase, words};

verus! {

/// The number of stations asked of the directory at most.
pub const PAGE_SIZE: u32 = 100;

/// The field by which the directory sorts the stations it returns.
#[derive(Clone, Copy, Debug, PartialEq, Eq, Structural)]
pub enum StationOrder {
    Votes,
    Clickcount,
}

/// A query for stations: a filter on the name, the sort field, the direction
/// and the number of stations wanted at most.
#[derive(Debug)]
pub struct StationQuery {
    pub name: String,
    pub order: StationOrder,
    pub reverse: bool,
    pub limit: u32,
}

/// A search: the query for the directory, and the parts of the search string.
/// The first part went into the query; the others filter what comes back.
#[derive(Debug)]
pub struct SearchQuery {
    pub request: StationQuery,
    pub parts: Vec<String>,
}

/// The parts of a search string: the words of its lowercase form.
pub open spec fn search_parts(search_string: Seq<char>) -> Seq<Seq<char>> {
    words(lowercase_of(search_string))
}

/// The name that a search asks the directory for: the first of its parts, or
/// the search string as it is where there are no parts.
pub open spec fn server_keyword(search_string: Seq<char>, parts: Seq<Seq<char>>) -> Seq<char> {
    if parts.len() == 0 {
        search_string
    } else {
        parts[0]
    }
}

/// The records of an answer: those that were fetched, or none where the
/// directory failed.
pub open spec fn fetched_records<T, E>(fetched: Result<Vec<T>, E>) -> Seq<T> {
    match fetched {
        Ok(found) => found@,
        Err(_) => Seq::empty(),
    }
}

/// The query for the stations whose names hold `name`: the first
/// [`PAGE_SIZE`] of them, sorted by `order`, highest first.
pub fn station_query(name: &str, order: StationOrder) -> (query: StationQuery)
    ensures
        query.name@ == name@,
        query.order == order,
        query.reverse,
        query.limit == PAGE_SIZE,
{
    StationQuery { name: name.to_owned(), order, reverse: true, limit: PAGE_SIZE }
}

/// The search for a search string that has been split into `parts`: the parts
/// are kept, and the query asks for the first of them, or for the search
/// string as it is where there are no parts.
pub fn search_of_parts(
    search_string: &str,
    parts: &Vec<&str>,
    order: StationOrder,
) -> (search: SearchQuery)
    ensures
        search.parts.deep_view() == parts.deep_view(),
        search.parts.len() == parts.len(),
        forall|k: int| 0 <= k < parts.len() ==> (#[trigger] search.parts[k])@ == parts[k]@,
        search.request.name@ == server_keyword(search_string@, parts.deep_view()),
        search.request.order == order,
        search.request.reverse,
        search.request.limit == PAGE_SIZE,
{
    let request = if parts.len() == 0 {
        station_query(search_string, order)
    } else {
        assert(parts.deep_view()[0] == parts[0]@);
        station_query(parts[0], order)
    };
    let mut owned: Vec<String> = Vec::new();
    let mut i: usize = 0;
    while i < parts.len()
        invariant
            i <= parts.len(),
            owned.len() == i,
            forall|k: int| 0 <= k < i ==> owned[k]@ == parts[k]@,
        decreases parts.len() - i,
    {
        owned.push(parts[i].to_owned());
        i += 1;
    }
    assert(owned.deep_view() == parts.deep_view());
    SearchQuery { request, parts: owned }
}

/// Prepares a search: splits the lowercased search string into its parts and
/// builds the query for the directory from the first of them.
pub fn search_query(search_string: &str, order: StationOrder) -> (search: SearchQuery)
    ensures
        search.parts.deep_view() == search_parts(search_string@),
        search.parts.len() == search_parts(search_string@).len(),
        forall|k: int|
            0 <= k < search.parts.len() ==> (#[trigger] search.parts[k])@ == search_parts(
                search_string@,
            )[k],
        search.request.name@ == server_keyword(search_string@, search_parts(search_string@)),
        search.request.order == order,
        search.request.reverse,
        search.request.limit == PAGE_SIZE,
{
    let downcase_search_string = to_lowercase(search_string);
    let parts = split_words(downcase_search_string.as_str());
    search_of_parts(search_string, &parts, order)
}

/// Takes the directory's answer as it comes: the records where there are any,
/// and an empty list where the directory failed, whatever the failure.
pub fn fetched_or_empty<T, E>(fetched: Result<Vec<T>, E>) -> (records: Vec<T>)
    ensures
        records@ == fetched_records(fetched),
        fetched matches Ok(found) ==> records == found,
{
    match fetched {
        Ok(found) => found,
        Err(_) => Vec::new(),
    }
}

} // verus!
