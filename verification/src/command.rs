//! What each command of the user interface answers.

use vstd::prelude::*;
use vstd::string::*;
use crate::filter::{extra_keywords, retained, retained_of_none, stations_post};
use crate::query::{fetched_or_empty, fetched_records};
use crate::record::{
    station_convert, tag_convert, ApiStation, ApiTag, JSStation, JSTag, Station, Tag,
};

verus! {

/// The stations of a list, as the contracts see them.
pub open spec fn station_views(records: Seq<ApiStation>) -> Seq<Station> {
    records.map_values(|record: ApiStation| record@)
}

/// The tags of a list, as the contracts see them.
pub open spec fn tag_views(records: Seq<ApiTag>) -> Seq<Tag> {
    records.map_values(|record: ApiTag| record@)
}

/// Borrows each string of a list.
fn as_strs<'a>(parts: &'a Vec<String>) -> (strs: Vec<&'a str>)
    ensures
        strs.deep_view() == parts.deep_view(),
{
    let mut strs: Vec<&'a str> = Vec::new();
    let mut i: usize = 0;
    while i < parts.len()
        invariant
            i <= parts.len(),
            strs.len() == i,
            forall|k: int| 0 <= k < i ==> strs[k]@ == parts[k]@,
        decreases parts.len() - i,
    {
        strs.push(parts[i].as_str());
        i += 1;
    }
    strs
}

/// The answer to a station search, from the directory's answer and the parts
/// of the search: the fetched stations that hold every part but the first, in
/// the directory's order, each handed on to the user interface. Where the
/// directory failed the answer is empty.
pub fn stations_reply<E>(
    fetched: Result<Vec<ApiStation>, E>,
    parts: &Vec<String>,
) -> (reply: Vec<JSStation>)
    ensures
        reply.deep_view() == station_views(
            retained(fetched_records(fetched), extra_keywords(parts.deep_view())),
        ),
        reply.len() == retained(
            fetched_records(fetched),
            extra_keywords(parts.deep_view()),
        ).len(),
        forall|k: int|
            0 <= k < reply.len() ==> (#[trigger] reply[k])@ == retained(
                fetched_records(fetched),
                extra_keywords(parts.deep_view()),
            )[k]@,
        fetched is Err ==> reply.len() == 0,
{
    let stations = fetched_or_empty(fetched);
    let kept = stations_post(stations, as_strs(parts));
    proof {
        if fetched is Err {
            retained_of_none(extra_keywords(parts.deep_view()));
        }
    }
    let mut reply: Vec<JSStation> = Vec::new();
    let mut i: usize = 0;
    while i < kept.len()
        invariant
            i <= kept.len(),
            reply.len() == i,
            forall|k: int| 0 <= k < i ==> reply[k]@ == kept[k]@,
        decreases kept.len() - i,
    {
        reply.push(station_convert(&kept[i]));
        i += 1;
    }
    reply
}

/// The answer to a tag listing, from the directory's answer: every tag, in the
/// directory's order, handed on to the user interface. Where the directory
/// failed the answer is empty.
pub fn tags_reply<E>(fetched: Result<Vec<ApiTag>, E>) -> (reply: Vec<JSTag>)
    ensures
        reply.deep_view() == tag_views(fetched_records(fetched)),
        reply.len() == fetched_records(fetched).len(),
        forall|k: int|
            0 <= k < reply.len() ==> (#[trigger] reply[k])@ == fetched_records(fetched)[k]@,
{
    let rb_tags = fetched_or_empty(fetched);
    let mut jst: Vec<JSTag> = Vec::new();
    let mut i: usize = 0;
    while i < rb_tags.len()
        invariant
            i <= rb_tags.len(),
            jst.len() == i,
            forall|k: int| 0 <= k < i ==> jst[k]@ == rb_tags[k]@,
        decreases rb_tags.len() - i,
    {
        jst.push(tag_convert(&rb_tags[i]));
        i += 1;
    }
    jst
}

/// Greets by name.
pub fn greet(name: &str) -> (greeting: String)
    ensures
        greeting@ == "Hello, "@ + name@ + "!"@,
{
    let mut greeting = String::from_str("Hello, ");
    greeting.append(name);
    greeting.append("!");
    greeting
}

} // verus!
