//! The records that pass through a search: what the directory returns and what
//! the user interface receives.

use vstd::prelude::*;

verus! {

/// A radio station, as the contracts see it.
pub struct Station {
    pub name: Seq<char>,
    pub stationuuid: Seq<char>,
    pub url: Seq<char>,
    pub homepage: Seq<char>,
    pub favicon: Seq<char>,
    pub codec: Seq<char>,
    pub bitrate: u32,
    pub clickcount: u32,
    pub votes: i32,
}

/// A tag, as the contracts see it.
pub struct Tag {
    pub name: Seq<char>,
    pub stationcount: u32,
}

/// A station as the directory returned it.
#[derive(Debug)]
pub struct ApiStation {
    pub name: String,
    pub stationuuid: String,
    pub url: String,
    pub homepage: String,
    pub favicon: String,
    pub codec: String,
    pub bitrate: u32,
    pub clickcount: u32,
    pub votes: i32,
}

/// A tag as the directory returned it.
#[derive(Debug)]
pub struct ApiTag {
    pub name: String,
    pub stationcount: u32,
}

/// A station as the user interface receives it.
#[derive(Debug)]
pub struct JSStation {
    pub name: String,
    pub stationuuid: String,
    pub url: String,
    pub homepage: String,
    pub favicon: String,
    pub codec: String,
    pub bitrate: u32,
    pub clickcount: u32,
    pub votes: i32,
}

/// A tag as the user interface receives it.
#[derive(Debug)]
pub struct JSTag {
    pub name: String,
    pub stationcount: u32,
}

impl View for ApiStation {
    type V = Station;

    open spec fn view(&self) -> Station {
        Station {
            name: self.name@,
            stationuuid: self.stationuuid@,
            url: self.url@,
            homepage: self.homepage@,
            favicon: self.favicon@,
            codec: self.codec@,
            bitrate: self.bitrate,
            clickcount: self.clickcount,
            votes: self.votes,
        }
    }
}

impl DeepView for ApiStation {
    type V = Station;

    open spec fn deep_view(&self) -> Station {
        self@
    }
}

impl View for JSStation {
    type V = Station;

    open spec fn view(&self) -> Station {
        Station {
            name: self.name@,
            stationuuid: self.stationuuid@,
            url: self.url@,
            homepage: self.homepage@,
            favicon: self.favicon@,
            codec: self.codec@,
            bitrate: self.bitrate,
            clickcount: self.clickcount,
            votes: self.votes,
        }
    }
}

impl DeepView for JSStation {
    type V = Station;

    open spec fn deep_view(&self) -> Station {
        self@
    }
}

impl View for ApiTag {
    type V = Tag;

    open spec fn view(&self) -> Tag {
        Tag { name: self.name@, stationcount: self.stationcount }
    }
}

impl DeepView for ApiTag {
    type V = Tag;

    open spec fn deep_view(&self) -> Tag {
        self@
    }
}

impl View for JSTag {
    type V = Tag;

    open spec fn view(&self) -> Tag {
        Tag { name: self.name@, stationcount: self.stationcount }
    }
}

impl DeepView for JSTag {
    type V = Tag;

    open spec fn deep_view(&self) -> Tag {
        self@
    }
}

impl Clone for ApiStation {
    fn clone(&self) -> (copy: Self)
        ensures
            copy == *self,
    {
        ApiStation {
            name: self.name.clone(),
            stationuuid: self.stationuuid.clone(),
            url: self.url.clone(),
            homepage: self.homepage.clone(),
            favicon: self.favicon.clone(),
            codec: self.codec.clone(),
            bitrate: self.bitrate,
            clickcount: self.clickcount,
            votes: self.votes,
        }
    }
}

/// Hands a station on to the user interface: every field is copied.
pub fn station_convert(rb_station: &ApiStation) -> (js: JSStation)
    ensures
        js@ == rb_station@,
{
    JSStation {
        name: rb_station.name.clone(),
        stationuuid: rb_station.stationuuid.clone(),
        url: rb_station.url.clone(),
        homepage: rb_station.homepage.clone(),
        favicon: rb_station.favicon.clone(),
        codec: rb_station.codec.clone(),
        bitrate: rb_station.bitrate,
        clickcount: rb_station.clickcount,
        votes: rb_station.votes,
    }
}

/// Hands a tag on to the user interface: name and station count are copied.
pub fn tag_convert(rb_tag: &ApiTag) -> (js: JSTag)
    ensures
        js@ == rb_tag@,
{
    JSTag { name: rb_tag.name.clone(), stationcount: rb_tag.stationcount }
}

} // verus!
