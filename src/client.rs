//! The decisions of the client: which page to ask for, what to do with each
//! response while retrying, and the cursor-driven stream of history.
//!
//! The caller performs the requests and the waits; these state machines say
//! what to request, when to wait and when to stop.
use vstd::prelude::*;
use crate::error_response::retriable_code;
use crate::errors::Error;
use crate::json::Json;
use crate::recent_tracks_page::{response_of, RecentTracksPage, RecentTracksPageView, RecentTracksResponse, RecentTracksResponseView};
use crate::retry_strategy::Delay;
use crate::text::{decimal_text, i64_text};
use crate::track::{NowPlayingTrack, RecordedTrack, RecordedTrackView, Track, TrackView};

verus! {

/// `s` with every character after the third replaced by `*`.
pub open spec fn masked(s: Seq<char>) -> Seq<char> {
    Seq::new(s.len(), |i: int| if i < 3 { s[i] } else { '*' })
}

/// Masks an API key for display: the first three characters stay, each
/// other becomes `*`.
pub fn mask_api_key(api_key: &str) -> (r: String)
    ensures
        r@ == masked(api_key@),
{
    let n = api_key.unicode_len();
    let keep = if n < 3 { n } else { 3 };
    let mut r = api_key.substring_char(0, keep).to_owned();
    let mut i = keep;
    proof { reveal_strlit("*"); }
    assert(r@ =~= masked(api_key@).take(i as int));
    while i < n
        invariant
            keep <= i <= n,
            n == api_key@.len(),
            keep == if n < 3 { n } else { 3 },
            r@ =~= masked(api_key@).take(i as int),
        decreases n - i,
    {
        r.append("*");
        proof { reveal_strlit("*"); }
        i = i + 1;
        assert(r@ =~= masked(api_key@).take(i as int));
    }
    assert(masked(api_key@).take(n as int) =~= masked(api_key@));
    r
}

/// The view of a list of query pairs.
pub open spec fn pairs_view(pairs: Seq<(String, String)>) -> Seq<(Seq<char>, Seq<char>)> {
    pairs.map_values(|p: (String, String)| (p.0@, p.1@))
}

/// The URL that `url` gives for `base` with the pairs of `query` appended
/// to its query string, where `base` parses as a URL.
pub uninterp spec fn url_with_query(base: Seq<char>, query: Seq<(Seq<char>, Seq<char>)>) -> Option<Seq<char>>;

/// Relies on `url::Url::parse_with_params`: it parses `base`, fails where
/// that is no URL, and appends the pairs, form-encoded, to the query.
#[verifier::external_body]
fn parse_with_params(base: &str, query: &Vec<(String, String)>) -> (r: Option<String>)
    ensures
        match r {
            Some(u) => url_with_query(base@, pairs_view(query@)) == Some(u@),
            None => url_with_query(base@, pairs_view(query@)) is None,
        },
{
    match url::Url::parse_with_params(base, query.iter()) {
        Ok(u) => Some(u.to_string()),
        Err(_) => None,
    }
}

/// What one page request asks for: the user's history, newest first, at
/// most `limit` tracks, played at or after `from` and at or before `to`
/// (seconds since the Unix epoch) where those are given.
#[derive(Debug)]
pub struct PageRequest {
    pub api_key: String,
    pub username: String,
    pub limit: u32,
    pub from: Option<i64>,
    pub to: Option<i64>,
}

/// The page size of the history stream.
pub const HISTORY_PAGE_SIZE: u32 = 200;

pub open spec fn bound_pair(name: Seq<char>, bound: Option<i64>) -> Seq<(Seq<char>, Seq<char>)> {
    match bound {
        Some(b) => seq![(name, decimal_text(b as int))],
        None => Seq::empty(),
    }
}

/// The query pairs of a request, in order.
pub open spec fn query_of(req: PageRequest) -> Seq<(Seq<char>, Seq<char>)> {
    seq![
        ("method"@, "user.getrecenttracks"@),
        ("user"@, req.username@),
        ("format"@, "json"@),
        ("extended"@, "1"@),
        ("limit"@, decimal_text(req.limit as int)),
        ("api_key"@, req.api_key@),
    ] + bound_pair("from"@, req.from) + bound_pair("to"@, req.to)
}

fn push_pair(pairs: &mut Vec<(String, String)>, name: &str, value: String)
    ensures
        pairs_view(final(pairs)@) == pairs_view(old(pairs)@).push((name@, value@)),
{
    pairs.push((name.to_owned(), value));
    assert(pairs_view(pairs@) =~= pairs_view(old(pairs)@).push((name@, value@)));
}

impl PageRequest {
    /// The request for the track playing now: the newest element alone.
    pub fn now_playing(api_key: &str, username: &str) -> (r: PageRequest)
        ensures
            r.api_key@ == api_key@,
            r.username@ == username@,
            r.limit == 1,
            r.from is None,
            r.to is None,
    {
        PageRequest { api_key: api_key.to_owned(), username: username.to_owned(), limit: 1, from: None, to: None }
    }

    /// The request for the first page of history between the bounds.
    pub fn history(api_key: &str, username: &str, from: Option<i64>, to: Option<i64>) -> (r: PageRequest)
        ensures
            r.api_key@ == api_key@,
            r.username@ == username@,
            r.limit == HISTORY_PAGE_SIZE,
            r.from == from,
            r.to == to,
    {
        PageRequest { api_key: api_key.to_owned(), username: username.to_owned(), limit: HISTORY_PAGE_SIZE, from, to }
    }

    /// The query pairs: method, user, format, extended, limit and api key,
    /// then `from` and `to` where they are given.
    pub fn query(&self) -> (r: Vec<(String, String)>)
        ensures
            pairs_view(r@) == query_of(*self),
    {
        let mut pairs: Vec<(String, String)> = Vec::new();
        assert(pairs_view(pairs@) =~= Seq::<(Seq<char>, Seq<char>)>::empty());
        push_pair(&mut pairs, "method", "user.getrecenttracks".to_owned());
        push_pair(&mut pairs, "user", self.username.clone());
        push_pair(&mut pairs, "format", "json".to_owned());
        push_pair(&mut pairs, "extended", "1".to_owned());
        push_pair(&mut pairs, "limit", i64_text(self.limit as i64));
        push_pair(&mut pairs, "api_key", self.api_key.clone());
        let ghost fixed = pairs_view(pairs@);
        if let Some(from) = self.from {
            push_pair(&mut pairs, "from", i64_text(from));
        }
        assert(pairs_view(pairs@) =~= fixed + bound_pair("from"@, self.from));
        let ghost with_from = pairs_view(pairs@);
        if let Some(to) = self.to {
            push_pair(&mut pairs, "to", i64_text(to));
        }
        assert(pairs_view(pairs@) =~= with_from + bound_pair("to"@, self.to));
        assert(pairs_view(pairs@) =~= query_of(*self));
        pairs
    }

    /// The URL of this request under `base_url`, or `None` where `base_url`
    /// is not a URL.
    pub fn url(&self, base_url: &str) -> (r: Option<String>)
        ensures
            match r {
                Some(u) => url_with_query(base_url@, query_of(*self)) == Some(u@),
                None => url_with_query(base_url@, query_of(*self)) is None,
            },
    {
        let query = self.query();
        parse_with_params(base_url, &query)
    }
}

/// What to do after a response.
#[derive(Debug)]
pub enum FetchStep {
    /// Wait this long, then ask the strategy about the next attempt.
    Retry(Delay),
    /// The page arrived; the fetch is over.
    Done(RecentTracksPage),
    /// The fetch failed for good.
    Failed(Error),
}

/// The state of the fetch of one page, through its attempts.
///
/// Each attempt starts with `begin`, which takes the retry strategy's
/// answer for attempt number `attempt`; the request is then sent and its
/// outcome handed to `on_transport_error` or `on_response`.
#[derive(Debug)]
pub struct PageFetch {
    /// The number of the current attempt, from zero.
    pub attempt: usize,
    /// The wait that the strategy granted for the current attempt.
    pub delay: Delay,
    /// The transport errors seen so far.
    pub errors: Vec<Error>,
}

pub open spec fn next_attempt(attempt: usize) -> usize {
    if attempt < usize::MAX {
        (attempt + 1) as usize
    } else {
        attempt
    }
}

impl PageFetch {
    pub fn new() -> (r: PageFetch)
        ensures
            r.attempt == 0,
            r.delay == (Delay { millis: 0 }),
            r.errors@.len() == 0,
    {
        PageFetch { attempt: 0, delay: Delay { millis: 0 }, errors: Vec::new() }
    }

    /// Takes the strategy's answer for the current attempt. `Some(delay)`
    /// lets it go ahead; `None` ends the fetch with `TooManyRetry` and every
    /// transport error seen.
    pub fn begin(&mut self, decision: Option<Delay>) -> (r: Option<Error>)
        ensures
            final(self).attempt == old(self).attempt,
            match decision {
                Some(d) => r is None && final(self).delay == d && final(self).errors == old(self).errors,
                None => r == Some(Error::TooManyRetry(old(self).errors)) && final(self).errors@.len() == 0
                    && final(self).delay == old(self).delay,
            },
    {
        match decision {
            Some(d) => {
                self.delay = d;
                None
            },
            None => {
                let mut errors: Vec<Error> = Vec::new();
                std::mem::swap(&mut errors, &mut self.errors);
                Some(Error::TooManyRetry(errors))
            },
        }
    }

    /// The transport failed on the current attempt: the error is kept, and
    /// the caller waits the granted delay before the next attempt.
    pub fn on_transport_error(&mut self, message: String) -> (r: Delay)
        ensures
            r == old(self).delay,
            final(self).errors@ == old(self).errors@.push(Error::Http(message)),
            final(self).attempt == next_attempt(old(self).attempt),
            final(self).delay == old(self).delay,
    {
        self.errors.push(Error::Http(message));
        if self.attempt < usize::MAX {
            self.attempt = self.attempt + 1;
        }
        self.delay
    }

    /// A response body arrived on the current attempt. A page ends the
    /// fetch; a retriable error envelope asks for a wait and a new attempt;
    /// a fatal one, or a body that does not decode, ends the fetch with that
    /// error.
    pub fn on_response(&mut self, body: &Json) -> (r: FetchStep)
        ensures
            final(self).errors == old(self).errors,
            final(self).delay == old(self).delay,
            match response_of(*body) {
                Err(e) => r == FetchStep::Failed(Error::Deserialization(e)) && final(self).attempt == old(self).attempt,
                Ok(RecentTracksResponseView::RecentTracksPage(p)) => r is Done && r->Done_0@ == p
                    && final(self).attempt == old(self).attempt,
                Ok(RecentTracksResponseView::Error(e)) => if retriable_code(e.error) {
                    r == FetchStep::Retry(old(self).delay) && final(self).attempt == next_attempt(old(self).attempt)
                } else {
                    r is Failed && r->Failed_0 is UnretriableLastFm && r->Failed_0->UnretriableLastFm_0@ == e
                        && final(self).attempt == old(self).attempt
                },
            },
    {
        match RecentTracksResponse::from_json(body) {
            Err(e) => FetchStep::Failed(Error::Deserialization(e)),
            Ok(RecentTracksResponse::RecentTracksPage(page)) => FetchStep::Done(page),
            Ok(RecentTracksResponse::Error(e)) => {
                if e.is_retriable() {
                    if self.attempt < usize::MAX {
                        self.attempt = self.attempt + 1;
                    }
                    FetchStep::Retry(self.delay)
                } else {
                    FetchStep::Failed(Error::UnretriableLastFm(e))
                }
            },
        }
    }
}

/// The track playing now, where the page's first element is one.
pub open spec fn now_playing_in(tracks: Seq<TrackView>) -> bool {
    tracks.len() > 0 && tracks[0] is NowPlaying
}

/// The track playing now according to a page: its first element, where that
/// is marked as playing now.
pub fn now_playing_of(page: RecentTracksPage) -> (r: Option<NowPlayingTrack>)
    ensures
        r is Some <==> now_playing_in(page@.tracks),
        r matches Some(t) ==> page@.tracks[0] == TrackView::NowPlaying(t@),
{
    let mut tracks = page.tracks;
    if tracks.len() == 0 {
        return None;
    }
    match tracks.swap_remove(0) {
        Track::NowPlaying(t) => Some(t),
        Track::Recorded(_) => None,
    }
}

} // verus!

verus! {

/// The recorded tracks among `tracks`, in order; tracks playing now are left out.
pub open spec fn recorded_of(tracks: Seq<TrackView>) -> Seq<RecordedTrackView>
    decreases tracks.len(),
{
    if tracks.len() == 0 {
        Seq::empty()
    } else {
        let rest = recorded_of(tracks.drop_first());
        match tracks[0] {
            TrackView::Recorded(t) => seq![t] + rest,
            TrackView::NowPlaying(_) => rest,
        }
    }
}

/// The cursor after a page whose records are `records`: the play time of
/// the oldest, the last one, or no bound where there is none.
pub open spec fn cursor_of(records: Seq<RecordedTrackView>) -> Option<i64> {
    if records.len() == 0 {
        None
    } else {
        Some(records.last().date)
    }
}

/// What a pull on the history stream asks of the caller.
#[derive(Debug)]
pub enum StreamStep {
    /// The next track of the history.
    Yield(RecordedTrack),
    /// The buffer is empty: fetch this page and hand it to `on_page`.
    Fetch(PageRequest),
    /// The history is over.
    End,
}

/// The history of a user as a stream of recorded tracks, newest first,
/// fetched a page at a time backwards in time.
///
/// `current_page` holds the buffered tracks with the next one to yield at
/// the end; `to` is the upper bound of the next fetch.
#[derive(Debug)]
pub struct RecentTracksFetcher {
    pub api_key: String,
    pub username: String,
    pub current_page: Vec<RecordedTrack>,
    pub from: Option<i64>,
    pub to: Option<i64>,
    /// The total number of tracks that the first page reported.
    pub total_tracks: u64,
    /// The stream has ended: an empty page or an error came.
    pub exhausted: bool,
}

impl RecentTracksFetcher {
    /// The buffered tracks in the order in which they will be yielded.
    pub open spec fn pending(&self) -> Seq<RecordedTrackView> {
        Seq::new(self.current_page@.len(), |i: int| self.current_page@[self.current_page@.len() - 1 - i]@)
    }

    /// The stream that starts with `first_page`, the page fetched with the
    /// caller's bounds `from` and `to`; `total_tracks` is that page's.
    pub fn new(
        api_key: String,
        username: String,
        from: Option<i64>,
        to: Option<i64>,
        first_page: RecentTracksPage,
    ) -> (r: RecentTracksFetcher)
        ensures
            r.api_key == api_key,
            r.username == username,
            r.from == from,
            r.total_tracks == first_page.total_tracks,
            r.pending() == recorded_of(first_page@.tracks),
            r.to == cursor_of(recorded_of(first_page@.tracks)),
            !r.exhausted,
    {
        let total_tracks = first_page.total_tracks;
        let mut fetcher = RecentTracksFetcher {
            api_key,
            username,
            current_page: Vec::new(),
            from,
            to,
            total_tracks,
            exhausted: false,
        };
        fetcher.update_current_page(first_page);
        fetcher
    }

    /// Replaces the buffer with the page's recorded tracks and moves the
    /// cursor to the oldest of them.
    fn update_current_page(&mut self, page: RecentTracksPage)
        ensures
            final(self).pending() == recorded_of(page@.tracks),
            final(self).to == cursor_of(recorded_of(page@.tracks)),
            final(self).api_key == old(self).api_key,
            final(self).username == old(self).username,
            final(self).from == old(self).from,
            final(self).total_tracks == old(self).total_tracks,
            final(self).exhausted == old(self).exhausted,
    {
        let ghost all = page@.tracks;
        let mut tracks = page.tracks;
        let mut buffer: Vec<RecordedTrack> = Vec::new();
        assert(all.subrange(all.len() as int, all.len() as int) =~= Seq::<TrackView>::empty());
        while tracks.len() > 0
            invariant
                tracks@.map_values(|t: Track| t@) =~= all.take(tracks@.len() as int),
                tracks@.len() <= all.len(),
                buffer@.len() == recorded_of(all.subrange(tracks@.len() as int, all.len() as int)).len(),
                forall|i: int| 0 <= i < buffer@.len() ==> (#[trigger] buffer@[i])@ == recorded_of(
                    all.subrange(tracks@.len() as int, all.len() as int),
                )[buffer@.len() - 1 - i],
            decreases tracks@.len(),
        {
            let ghost k = tracks@.len() as int;
            let ghost before = recorded_of(all.subrange(k, all.len() as int));
            let ghost old_tracks = tracks@;
            assert(old_tracks.map_values(|t: Track| t@)[k - 1] == old_tracks[k - 1]@);
            assert(all.take(k)[k - 1] == all[k - 1]);
            let t = tracks.pop().unwrap();
            assert(all[k - 1] == t@);
            assert(all.subrange(k - 1, all.len() as int).drop_first() =~= all.subrange(k, all.len() as int));
            assert(tracks@.map_values(|t: Track| t@) =~= all.take(k - 1));
            if let Track::Recorded(r) = t {
                let ghost after = recorded_of(all.subrange(k - 1, all.len() as int));
                assert(after =~= seq![r@] + before);
                buffer.push(r);
            }
        }
        assert(all.subrange(0, all.len() as int) =~= all);
        let ghost records = recorded_of(all);
        self.to = if buffer.len() > 0 {
            Some(buffer[0].date.timestamp())
        } else {
            None
        };
        self.current_page = buffer;
        assert(self.pending() =~= records);
    }

    /// Pulls the stream: yields the next buffered track, or asks for the
    /// next page below the cursor, or says that the stream is over.
    pub fn next_step(&mut self) -> (r: StreamStep)
        ensures
            final(self).api_key == old(self).api_key,
            final(self).username == old(self).username,
            final(self).from == old(self).from,
            final(self).to == old(self).to,
            final(self).total_tracks == old(self).total_tracks,
            final(self).exhausted == old(self).exhausted,
            old(self).pending().len() > 0 ==> r is Yield && r->Yield_0@ == old(self).pending()[0]
                && final(self).pending() == old(self).pending().drop_first(),
            old(self).pending().len() == 0 ==> final(self).pending().len() == 0,
            old(self).pending().len() == 0 && old(self).exhausted ==> r is End,
            old(self).pending().len() == 0 && !old(self).exhausted ==> r == StreamStep::Fetch(
                PageRequest {
                    api_key: old(self).api_key,
                    username: old(self).username,
                    limit: HISTORY_PAGE_SIZE,
                    from: old(self).from,
                    to: old(self).to,
                },
            ),
    {
        match self.current_page.pop() {
            Some(t) => {
                assert(self.pending() =~= old(self).pending().drop_first());
                StreamStep::Yield(t)
            },
            None => {
                assert(self.pending() =~= Seq::<RecordedTrackView>::empty());
                if self.exhausted {
                    StreamStep::End
                } else {
                    StreamStep::Fetch(
                        PageRequest {
                            api_key: self.api_key.clone(),
                            username: self.username.clone(),
                            limit: HISTORY_PAGE_SIZE,
                            from: self.from,
                            to: self.to,
                        },
                    )
                }
            },
        }
    }

    /// Takes the page that a `Fetch` asked for. An empty page ends the
    /// stream; any other fills the buffer and moves the cursor.
    pub fn on_page(&mut self, page: RecentTracksPage)
        ensures
            final(self).api_key == old(self).api_key,
            final(self).username == old(self).username,
            final(self).from == old(self).from,
            final(self).total_tracks == old(self).total_tracks,
            page@.tracks.len() == 0 ==> final(self).exhausted && final(self).pending() == old(self).pending()
                && final(self).to == old(self).to,
            page@.tracks.len() > 0 ==> final(self).exhausted == old(self).exhausted
                && final(self).pending() == recorded_of(page@.tracks)
                && final(self).to == cursor_of(recorded_of(page@.tracks)),
    {
        if page.tracks.len() == 0 {
            self.exhausted = true;
        } else {
            self.update_current_page(page);
        }
    }

    /// The fetch that a `Fetch` asked for failed: the caller surfaces the
    /// error and the stream ends.
    pub fn on_error(&mut self)
        ensures
            final(self).exhausted,
            final(self).pending() == old(self).pending(),
            final(self).to == old(self).to,
            final(self).total_tracks == old(self).total_tracks,
    {
        self.exhausted = true;
    }
}

} // verus!
