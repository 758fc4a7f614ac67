//! A page of listening history, and the response that carries either a page
//! or an error envelope.
use vstd::prelude::*;
use crate::error_response::{error_response_of, ErrorResponse, ErrorResponseView};
use crate::errors::{DecodeError, Field};
use crate::json::{is_object, member, text_member, Json};
use crate::text::{parse_u64, u64_of_text};
use crate::track::{track_of, Track, TrackView};

verus! {

/// One page of history: the total count that the service reports and the
/// page's tracks, newest first.
#[derive(Debug)]
pub struct RecentTracksPage {
    pub total_tracks: u64,
    pub tracks: Vec<Track>,
}

pub struct RecentTracksPageView {
    pub total_tracks: u64,
    pub tracks: Seq<TrackView>,
}

impl View for RecentTracksPage {
    type V = RecentTracksPageView;

    open spec fn view(&self) -> RecentTracksPageView {
        RecentTracksPageView {
            total_tracks: self.total_tracks,
            tracks: self.tracks@.map_values(|t: Track| t@),
        }
    }
}

/// A response of the service: an error envelope or a page.
#[derive(Debug)]
pub enum RecentTracksResponse {
    Error(ErrorResponse),
    RecentTracksPage(RecentTracksPage),
}

pub enum RecentTracksResponseView {
    Error(ErrorResponseView),
    RecentTracksPage(RecentTracksPageView),
}

impl View for RecentTracksResponse {
    type V = RecentTracksResponseView;

    open spec fn view(&self) -> RecentTracksResponseView {
        match self {
            RecentTracksResponse::Error(e) => RecentTracksResponseView::Error(e@),
            RecentTracksResponse::RecentTracksPage(p) => RecentTracksResponseView::RecentTracksPage(p@),
        }
    }
}

/// The tracks that a list of track elements decodes to; the first element
/// that fails gives the error.
pub open spec fn tracks_of(items: Seq<Json>) -> Result<Seq<TrackView>, DecodeError>
    decreases items.len(),
{
    if items.len() == 0 {
        Ok(Seq::empty())
    } else {
        match tracks_of(items.drop_last()) {
            Err(e) => Err(e),
            Ok(ts) => match track_of(items.last()) {
                Err(e) => Err(e),
                Ok(t) => Ok(ts.push(t)),
            },
        }
    }
}

/// The `track` list of a page, once the total count has been read.
pub open spec fn page_tracks_of(list: Json, total: u64) -> Result<RecentTracksPageView, DecodeError> {
    match list {
        Json::Array(items) => match tracks_of(items@) {
            Err(e) => Err(e),
            Ok(tracks) => Ok(RecentTracksPageView { total_tracks: total, tracks }),
        },
        _ => Err(DecodeError::MissingField(Field::Track)),
    }
}

/// What decoding `v` as a page gives: `recenttracks` is an object whose
/// `@attr.total` is an unsigned count as text and whose `track` is a list
/// of track elements.
pub open spec fn page_of(v: Json) -> Result<RecentTracksPageView, DecodeError> {
    match member(v, "recenttracks"@) {
        Some(rt) if is_object(rt) => match member(rt, "@attr"@) {
            Some(attr) if is_object(attr) => match text_member(attr, "total"@) {
                None => Err(DecodeError::MissingField(Field::Total)),
                Some(text) => match u64_of_text(text) {
                    None => Err(DecodeError::InvalidTotal),
                    Some(total) => match member(rt, "track"@) {
                        Some(list) => page_tracks_of(list, total),
                        None => Err(DecodeError::MissingField(Field::Track)),
                    },
                },
            },
            _ => Err(DecodeError::MissingField(Field::Attr)),
        },
        _ => Err(DecodeError::MissingField(Field::RecentTracks)),
    }
}

/// What decoding `v` as a response gives. A body with a `recenttracks`
/// member is a page, and fails as one; any other body is an error envelope
/// or fails.
pub open spec fn response_of(v: Json) -> Result<RecentTracksResponseView, DecodeError> {
    if member(v, "recenttracks"@) is Some {
        match page_of(v) {
            Ok(p) => Ok(RecentTracksResponseView::RecentTracksPage(p)),
            Err(e) => Err(e),
        }
    } else {
        match error_response_of(v) {
            Some(e) => Ok(RecentTracksResponseView::Error(e)),
            None => Err(DecodeError::MissingField(Field::RecentTracks)),
        }
    }
}

/// Where the first `n - 1` elements decode and the element at `n - 1` does
/// not, the list fails with that element's error.
proof fn lemma_tracks_prefix_error(items: Seq<Json>, n: int)
    requires
        0 < n <= items.len(),
        tracks_of(items.take(n - 1)) is Ok,
        track_of(items[n - 1]) is Err,
    ensures
        tracks_of(items) == Err::<Seq<TrackView>, DecodeError>(track_of(items[n - 1])->Err_0),
    decreases items.len(),
{
    if n < items.len() {
        assert(items.drop_last().take(n - 1) =~= items.take(n - 1));
        assert(items.drop_last()[n - 1] == items[n - 1]);
        lemma_tracks_prefix_error(items.drop_last(), n);
    } else {
        assert(items.drop_last() =~= items.take(n - 1));
    }
}

fn tracks_from_json(items: &Vec<Json>) -> (r: Result<Vec<Track>, DecodeError>)
    ensures
        match r {
            Ok(ts) => tracks_of(items@) == Ok::<Seq<TrackView>, DecodeError>(ts@.map_values(|t: Track| t@)),
            Err(e) => tracks_of(items@) == Err::<Seq<TrackView>, DecodeError>(e),
        },
{
    let mut tracks: Vec<Track> = Vec::new();
    let mut i: usize = 0;
    assert(items@.take(0) =~= Seq::<Json>::empty());
    assert(tracks@.map_values(|t: Track| t@) =~= Seq::<TrackView>::empty());
    while i < items.len()
        invariant
            0 <= i <= items@.len(),
            tracks_of(items@.take(i as int)) == Ok::<Seq<TrackView>, DecodeError>(tracks@.map_values(|t: Track| t@)),
        decreases items@.len() - i,
    {
        assert(items@.take(i + 1).drop_last() =~= items@.take(i as int));
        match Track::from_json(&items[i]) {
            Ok(t) => {
                let ghost before = tracks@;
                tracks.push(t);
                assert(tracks@.map_values(|t: Track| t@) =~= before.map_values(|t: Track| t@).push(t@));
            },
            Err(e) => {
                proof { lemma_tracks_prefix_error(items@, i as int + 1); }
                return Err(e);
            },
        }
        i = i + 1;
    }
    assert(items@.take(items@.len() as int) =~= items@);
    Ok(tracks)
}

impl RecentTracksPage {
    /// Decodes a page.
    pub fn from_json(v: &Json) -> (r: Result<RecentTracksPage, DecodeError>)
        ensures
            match r {
                Ok(p) => page_of(*v) == Ok::<RecentTracksPageView, DecodeError>(p@),
                Err(e) => page_of(*v) == Err::<RecentTracksPageView, DecodeError>(e),
            },
    {
        let rt = match v.get("recenttracks") {
            Some(rt) => rt,
            None => return Err(DecodeError::MissingField(Field::RecentTracks)),
        };
        if !rt.is_object() {
            return Err(DecodeError::MissingField(Field::RecentTracks));
        }
        let attr = match rt.get("@attr") {
            Some(attr) => attr,
            None => return Err(DecodeError::MissingField(Field::Attr)),
        };
        if !attr.is_object() {
            return Err(DecodeError::MissingField(Field::Attr));
        }
        let total_tracks = match attr.get_str("total") {
            Some(text) => match parse_u64(text.as_str()) {
                Some(total) => total,
                None => return Err(DecodeError::InvalidTotal),
            },
            None => return Err(DecodeError::MissingField(Field::Total)),
        };
        match rt.get("track") {
            Some(Json::Array(items)) => {
                let tracks = tracks_from_json(items)?;
                Ok(RecentTracksPage { total_tracks, tracks })
            },
            _ => Err(DecodeError::MissingField(Field::Track)),
        }
    }
}

impl RecentTracksResponse {
    /// Decodes a response body: a page where it has a `recenttracks` member,
    /// else an error envelope.
    pub fn from_json(v: &Json) -> (r: Result<RecentTracksResponse, DecodeError>)
        ensures
            match r {
                Ok(x) => response_of(*v) == Ok::<RecentTracksResponseView, DecodeError>(x@),
                Err(e) => response_of(*v) == Err::<RecentTracksResponseView, DecodeError>(e),
            },
    {
        if v.get("recenttracks").is_some() {
            let page = RecentTracksPage::from_json(v)?;
            Ok(RecentTracksResponse::RecentTracksPage(page))
        } else {
            match ErrorResponse::from_json(v) {
                Some(e) => Ok(RecentTracksResponse::Error(e)),
                None => Err(DecodeError::MissingField(Field::RecentTracks)),
            }
        }
    }
}

} // verus!
