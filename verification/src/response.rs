//! The response envelope: one wire shape fanning into four record kinds,
//! keyed by a type discriminator field. The discriminator is classified
//! first; an unrecognized one is a protocol error.
use vstd::prelude::*;

use crate::channels::channels_view;
use crate::channels::Channel;
use crate::devices::devices_view;
use crate::devices::Device;
use crate::errors::ErrorKind;
use crate::errors::XTVError;
use crate::recordings::Recording;
use crate::recordings::RecordingView;
use crate::search::SearchResult;
use crate::search::SearchResultView;
use crate::strutil::str_eq;

verus! {

/// The four record kinds a response envelope can carry.
#[derive(Clone, Copy, PartialEq, Eq, Structural, Debug)]
pub enum ResponseKind {
    Channels,
    Devices,
    Recordings,
    SearchResults,
}

/// Which record kind a discriminator value names, if any.
pub open spec fn spec_classify(d: Seq<char>) -> Option<ResponseKind> {
    if d == "Enumeration/ChannelMap"@ {
        Some(ResponseKind::Channels)
    } else if d == "Enumeration/Device"@ {
        Some(ResponseKind::Devices)
    } else if d == "Enumeration/Recording"@ {
        Some(ResponseKind::Recordings)
    } else if d == "Enumeration/SearchResult"@ {
        Some(ResponseKind::SearchResults)
    } else {
        None
    }
}

/// Classifies a response envelope's type discriminator, answering a
/// protocol error for an unrecognized one.
pub fn classify_response(discriminator: &str) -> (r: Result<ResponseKind, XTVError>)
    ensures
        match r {
            Ok(k) => spec_classify(discriminator@) == Some(k),
            Err(e) => spec_classify(discriminator@) is None && e@.kind == ErrorKind::Protocol,
        },
{
    if str_eq(discriminator, "Enumeration/ChannelMap") {
        Ok(ResponseKind::Channels)
    } else if str_eq(discriminator, "Enumeration/Device") {
        Ok(ResponseKind::Devices)
    } else if str_eq(discriminator, "Enumeration/Recording") {
        Ok(ResponseKind::Recordings)
    } else if str_eq(discriminator, "Enumeration/SearchResult") {
        Ok(ResponseKind::SearchResults)
    } else {
        Err(XTVError::new(ErrorKind::Protocol, String::from_str("unknown response type")))
    }
}

/// The views of a sequence of recordings.
pub open spec fn recordings_view(s: Seq<Recording>) -> Seq<RecordingView> {
    s.map_values(|r: Recording| r@)
}

/// The views of a sequence of search results.
pub open spec fn search_results_view(s: Seq<SearchResult>) -> Seq<SearchResultView> {
    s.map_values(|r: SearchResult| r@)
}

/// A decoded response envelope: the records of the one kind the envelope
/// carried.
#[derive(Debug)]
pub enum XTVResponse {
    Channels(Vec<Channel>),
    Devices(Vec<Device>),
    Recordings(Vec<Recording>),
    SearchResults(Vec<SearchResult>),
}

fn clone_channels(v: &Vec<Channel>) -> (r: Vec<Channel>)
    ensures
        channels_view(r@) == channels_view(v@),
{
    let n = v.len();
    let mut r: Vec<Channel> = Vec::new();
    let mut i: usize = 0;
    while i < n
        invariant
            n == v@.len(),
            i <= n,
            r@.len() == i as int,
            forall|j: int| 0 <= j < i ==> r@[j]@ == v@[j]@,
        decreases n - i,
    {
        r.push(v[i].clone());
        i += 1;
    }
    proof {
        assert(channels_view(r@) =~= channels_view(v@));
    }
    r
}

fn clone_devices(v: &Vec<Device>) -> (r: Vec<Device>)
    ensures
        devices_view(r@) == devices_view(v@),
{
    let n = v.len();
    let mut r: Vec<Device> = Vec::new();
    let mut i: usize = 0;
    while i < n
        invariant
            n == v@.len(),
            i <= n,
            r@.len() == i as int,
            forall|j: int| 0 <= j < i ==> r@[j]@ == v@[j]@,
        decreases n - i,
    {
        r.push(v[i].clone());
        i += 1;
    }
    proof {
        assert(devices_view(r@) =~= devices_view(v@));
    }
    r
}

fn clone_recordings(v: &Vec<Recording>) -> (r: Vec<Recording>)
    ensures
        recordings_view(r@) == recordings_view(v@),
{
    let n = v.len();
    let mut r: Vec<Recording> = Vec::new();
    let mut i: usize = 0;
    while i < n
        invariant
            n == v@.len(),
            i <= n,
            r@.len() == i as int,
            forall|j: int| 0 <= j < i ==> r@[j]@ == v@[j]@,
        decreases n - i,
    {
        r.push(v[i].clone());
        i += 1;
    }
    proof {
        assert(recordings_view(r@) =~= recordings_view(v@));
    }
    r
}

fn clone_search_results(v: &Vec<SearchResult>) -> (r: Vec<SearchResult>)
    ensures
        search_results_view(r@) == search_results_view(v@),
{
    let n = v.len();
    let mut r: Vec<SearchResult> = Vec::new();
    let mut i: usize = 0;
    while i < n
        invariant
            n == v@.len(),
            i <= n,
            r@.len() == i as int,
            forall|j: int| 0 <= j < i ==> r@[j]@ == v@[j]@,
        decreases n - i,
    {
        r.push(v[i].clone());
        i += 1;
    }
    proof {
        assert(search_results_view(r@) =~= search_results_view(v@));
    }
    r
}

impl XTVResponse {
    /// The channel records of a channel-map envelope.
    pub fn channels(&self) -> (r: Vec<Channel>)
        requires
            self is Channels,
        ensures
            channels_view(r@) == channels_view(self->Channels_0@),
    {
        match self {
            XTVResponse::Channels(v) => clone_channels(v),
            _ => unreached(),
        }
    }

    /// The device records of a device-listing envelope.
    pub fn devices(&self) -> (r: Vec<Device>)
        requires
            self is Devices,
        ensures
            devices_view(r@) == devices_view(self->Devices_0@),
    {
        match self {
            XTVResponse::Devices(v) => clone_devices(v),
            _ => unreached(),
        }
    }

    /// The recording records of a recording-listing envelope.
    pub fn recordings(&self) -> (r: Vec<Recording>)
        requires
            self is Recordings,
        ensures
            recordings_view(r@) == recordings_view(self->Recordings_0@),
    {
        match self {
            XTVResponse::Recordings(v) => clone_recordings(v),
            _ => unreached(),
        }
    }

    /// The search-result records of a search envelope.
    pub fn search_results(&self) -> (r: Vec<SearchResult>)
        requires
            self is SearchResults,
        ensures
            search_results_view(r@) == search_results_view(self->SearchResults_0@),
    {
        match self {
            XTVResponse::SearchResults(v) => clone_search_results(v),
            _ => unreached(),
        }
    }
}

} // verus!
