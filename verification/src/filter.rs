//! The filter applied to fetched stations: a station stays if its name holds
//! every keyword.

use vstd::prelude::*;
use crate::record::ApiStation;
use crate::text::{contains, empty_is_substring, is_substring, lowercase_of, to_lowercase};

verus! {

/// `text` holds every one of `keywords` as a substring.
pub open spec fn holds_all(text: Seq<char>, keywords: Seq<Seq<char>>) -> bool {
    forall|k: int| 0 <= k < keywords.len() ==> is_substring(#[trigger] keywords[k], text)
}

/// The lowercase form of `name` holds every one of `keywords` as a substring.
pub open spec fn has_keywords(name: Seq<char>, keywords: Seq<Seq<char>>) -> bool {
    holds_all(lowercase_of(name), keywords)
}

/// The records whose names hold every keyword, in the order of `records`.
pub open spec fn retained(records: Seq<ApiStation>, keywords: Seq<Seq<char>>) -> Seq<ApiStation> {
    records.filter(|record: ApiStation| has_keywords(record.name@, keywords))
}

/// The keywords that the filter applies: the parts of a search after the first,
/// which went to the directory.
pub open spec fn extra_keywords(parts: Seq<Seq<char>>) -> Seq<Seq<char>> {
    if parts.len() > 1 {
        parts.skip(1)
    } else {
        Seq::empty()
    }
}

/// Whether a name, given in lowercase, holds each part of the search but the
/// first as a substring. A search of one part, or of none, asks nothing of it.
pub fn holds_keywords(downcase_name: &str, parts: &Vec<&str>) -> (held: bool)
    ensures
        held == holds_all(downcase_name@, extra_keywords(parts.deep_view())),
{
    let ghost keywords = extra_keywords(parts.deep_view());
    let mut j: usize = 1;
    while j < parts.len()
        invariant
            1 <= j,
            keywords == extra_keywords(parts.deep_view()),
            forall|k: int| 0 <= k < j - 1 ==> is_substring(#[trigger] keywords[k], downcase_name@),
        decreases parts.len() - j,
    {
        assert(keywords[j - 1] == parts[j as int]@);
        if !contains(downcase_name, parts[j]) {
            return false;
        }
        j += 1;
    }
    true
}

/// Keeps the stations whose lowercased names hold each part of the search but
/// the first as a substring. The order of the stations is kept.
///
/// The parts are compared as they are: the caller passes them in lowercase.
pub fn stations_post(rb_stations: Vec<ApiStation>, parts: Vec<&str>) -> (jss: Vec<ApiStation>)
    ensures
        jss@ == retained(rb_stations@, extra_keywords(parts.deep_view())),
        parts.len() <= 1 ==> jss@ == rb_stations@,
{
    let ghost keywords = extra_keywords(parts.deep_view());
    proof {
        if parts.len() <= 1 {
            retained_without_keywords(rb_stations@, keywords);
        }
    }
    let mut jss: Vec<ApiStation> = Vec::new();
    let mut i: usize = 0;
    while i < rb_stations.len()
        invariant
            i <= rb_stations.len(),
            keywords == extra_keywords(parts.deep_view()),
            jss@ == retained(rb_stations@.take(i as int), keywords),
        decreases rb_stations.len() - i,
    {
        let rb = &rb_stations[i];
        let downcase_name = to_lowercase(rb.name.as_str());
        let should_include = holds_keywords(downcase_name.as_str(), &parts);
        proof {
            let pred = |record: ApiStation| has_keywords(record.name@, keywords);
            let before = rb_stations@.take(i as int);
            assert(rb_stations@.take(i as int + 1) == before.push(*rb));
            before.lemma_filter_push(*rb, pred);
        }
        if should_include {
            jss.push(rb.clone());
        }
        i += 1;
    }
    assert(rb_stations@.take(i as int) == rb_stations@);
    jss
}

/// An empty keyword asks nothing: with it or without it, a text holds the same
/// keywords.
pub proof fn empty_keyword_asks_nothing(text: Seq<char>, keywords: Seq<Seq<char>>)
    ensures
        holds_all(text, keywords.push(Seq::empty())) <==> holds_all(text, keywords),
{
    let longer = keywords.push(Seq::empty());
    empty_is_substring(text);
    if holds_all(text, longer) {
        assert forall|k: int| 0 <= k < keywords.len() implies is_substring(
            #[trigger] keywords[k],
            text,
        ) by {
            assert(longer[k] == keywords[k]);
        }
    }
}

/// The filter does not tell upper case from lower case in a name: two names
/// with one lowercase form hold the same keywords.
pub proof fn has_keywords_ignores_case(
    name: Seq<char>,
    other: Seq<char>,
    keywords: Seq<Seq<char>>,
)
    requires
        lowercase_of(name) == lowercase_of(other),
    ensures
        has_keywords(name, keywords) <==> has_keywords(other, keywords),
{
}

/// A filter whose test every element passes changes nothing.
proof fn lemma_filter_keeps_all<A>(s: Seq<A>, pred: spec_fn(A) -> bool)
    requires
        forall|k: int| 0 <= k < s.len() ==> pred(#[trigger] s[k]),
    ensures
        s.filter(pred) == s,
    decreases s.len(),
{
    reveal(Seq::filter);
    if s.len() > 0 {
        lemma_filter_keeps_all(s.drop_last(), pred);
        assert(s.drop_last().push(s.last()) == s);
    }
}

/// Without keywords every record is retained, each in its place.
pub proof fn retained_without_keywords(records: Seq<ApiStation>, keywords: Seq<Seq<char>>)
    requires
        keywords.len() == 0,
    ensures
        retained(records, keywords) == records,
{
    lemma_filter_keeps_all(records, |record: ApiStation| has_keywords(record.name@, keywords));
}

/// Of no records none is retained.
pub proof fn retained_of_none(keywords: Seq<Seq<char>>)
    ensures
        retained(Seq::empty(), keywords) == Seq::<ApiStation>::empty(),
{
    reveal(Seq::filter);
}

/// A search of one part, or of none, has no keywords left for the filter, so
/// every record is retained.
pub proof fn retained_of_short_search(records: Seq<ApiStation>, parts: Seq<Seq<char>>)
    requires
        parts.len() <= 1,
    ensures
        retained(records, extra_keywords(parts)) == records,
{
    retained_without_keywords(records, extra_keywords(parts));
}

/// A record is among the retained ones if and only if it is among the given
/// ones and its lowercased name holds every keyword.
pub proof fn retained_contains(
    records: Seq<ApiStation>,
    keywords: Seq<Seq<char>>,
    record: ApiStation,
)
    ensures
        retained(records, keywords).contains(record) <==> records.contains(record) && has_keywords(
            record.name@,
            keywords,
        ),
{
    let pred = |record: ApiStation| has_keywords(record.name@, keywords);
    let kept = records.filter(pred);
    if kept.contains(record) {
        records.lemma_filter_contains_rev(pred, record);
        let at = choose|at: int| 0 <= at < kept.len() && kept[at] == record;
        records.lemma_filter_pred(pred, at);
    }
    if records.contains(record) && has_keywords(record.name@, keywords) {
        let at = choose|at: int| 0 <= at < records.len() && records[at] == record;
        records.lemma_filter_contains(pred, at);
    }
}

/// The retained records stand in the order in which they were given: any two
/// of them come from two places of `records`, the earlier from the earlier.
pub proof fn retained_keeps_order(
    records: Seq<ApiStation>,
    keywords: Seq<Seq<char>>,
    i: int,
    j: int,
)
    requires
        0 <= i < j < retained(records, keywords).len(),
    ensures
        exists|a: int, b: int|
            0 <= a < b < records.len() && records[a] == retained(records, keywords)[i]
                && records[b] == retained(records, keywords)[j],
    decreases records.len(),
{
    let pred = |record: ApiStation| has_keywords(record.name@, keywords);
    let kept = records.filter(pred);
    reveal(Seq::filter);
    assert(records.len() > 0);
    let before = records.drop_last();
    let kept_before = before.filter(pred);
    if j < kept_before.len() {
        retained_keeps_order(before, keywords, i, j);
        let (a, b) = choose|a: int, b: int|
            0 <= a < b < before.len() && before[a] == kept_before[i] && before[b] == kept_before[j];
        assert(0 <= a < b < records.len() && records[a] == kept[i] && records[b] == kept[j]);
    } else {
        assert(kept == kept_before.push(records.last()));
        assert(kept_before.contains(kept_before[i]));
        before.lemma_filter_contains_rev(pred, kept_before[i]);
        let a = choose|a: int| 0 <= a < before.len() && before[a] == kept_before[i];
        let b = records.len() - 1;
        assert(0 <= a < b < records.len() && records[a] == kept[i] && records[b] == kept[j]);
    }
}

/// Filtering what was already filtered, with the same keywords, changes nothing.
pub proof fn retained_is_idempotent(records: Seq<ApiStation>, keywords: Seq<Seq<char>>)
    ensures
        retained(retained(records, keywords), keywords) == retained(records, keywords),
{
    let pred = |record: ApiStation| has_keywords(record.name@, keywords);
    let kept = records.filter(pred);
    assert forall|k: int| 0 <= k < kept.len() implies pred(#[trigger] kept[k]) by {
        records.lemma_filter_pred(pred, k);
    }
    lemma_filter_keeps_all(kept, pred);
}

} // verus!
