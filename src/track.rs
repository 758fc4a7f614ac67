//! One element of a page of listening history: a track being played now,
//! or one played at a known instant.
use vstd::prelude::*;
use crate::artist::{artist_of, Artist, ArtistView};
use crate::errors::{DecodeError, Field};
use crate::imageset::{image_set_of, ImageSet, ImageSetView};
use crate::json::{is_object, member, text_is, text_member, Json};
use crate::lfm_date::{date_of, LfmDate};

verus! {

/// The track that the user is playing now; it has no play time.
#[derive(Debug)]
pub struct NowPlayingTrack {
    pub artist: Artist,
    pub name: String,
    pub image: ImageSet,
    pub album: String,
    pub url: String,
}

/// A track that the user played at `date`.
#[derive(Debug)]
pub struct RecordedTrack {
    pub artist: Artist,
    pub name: String,
    pub image: ImageSet,
    pub album: String,
    pub url: String,
    pub date: LfmDate,
}

/// A decoded track element: exactly one of the two kinds.
#[derive(Debug)]
pub enum Track {
    NowPlaying(NowPlayingTrack),
    Recorded(RecordedTrack),
}

pub struct NowPlayingTrackView {
    pub artist: ArtistView,
    pub name: Seq<char>,
    pub image: ImageSetView,
    pub album: Seq<char>,
    pub url: Seq<char>,
}

pub struct RecordedTrackView {
    pub artist: ArtistView,
    pub name: Seq<char>,
    pub image: ImageSetView,
    pub album: Seq<char>,
    pub url: Seq<char>,
    /// Seconds since the Unix epoch.
    pub date: i64,
}

pub enum TrackView {
    NowPlaying(NowPlayingTrackView),
    Recorded(RecordedTrackView),
}

impl View for NowPlayingTrack {
    type V = NowPlayingTrackView;

    open spec fn view(&self) -> NowPlayingTrackView {
        NowPlayingTrackView {
            artist: self.artist@,
            name: self.name@,
            image: self.image@,
            album: self.album@,
            url: self.url@,
        }
    }
}

impl View for RecordedTrack {
    type V = RecordedTrackView;

    open spec fn view(&self) -> RecordedTrackView {
        RecordedTrackView {
            artist: self.artist@,
            name: self.name@,
            image: self.image@,
            album: self.album@,
            url: self.url@,
            date: self.date@,
        }
    }
}

impl View for Track {
    type V = TrackView;

    open spec fn view(&self) -> TrackView {
        match self {
            Track::NowPlaying(t) => TrackView::NowPlaying(t@),
            Track::Recorded(t) => TrackView::Recorded(t@),
        }
    }
}

/// The album title, which the payload nests as `album.#text`.
pub open spec fn album_of(v: Json) -> Result<Seq<char>, DecodeError> {
    match member(v, "album"@) {
        Some(album) => if is_object(album) {
            match text_member(album, "#text"@) {
                Some(title) => Ok(title),
                None => Err(DecodeError::MissingField(Field::Text)),
            }
        } else {
            Err(DecodeError::MissingField(Field::Album))
        },
        None => Err(DecodeError::MissingField(Field::Album)),
    }
}

/// The members that every track element carries, checked in this order:
/// artist, name, image list, album title and url.
pub open spec fn track_fields_of(v: Json) -> Result<NowPlayingTrackView, DecodeError> {
    match member(v, "artist"@) {
        None => Err(DecodeError::MissingField(Field::Artist)),
        Some(a) => match artist_of(a) {
            Err(e) => Err(e),
            Ok(artist) => match text_member(v, "name"@) {
                None => Err(DecodeError::MissingField(Field::Name)),
                Some(name) => match member(v, "image"@) {
                    None => Err(DecodeError::MissingField(Field::Image)),
                    Some(images) => match image_set_of(images) {
                        Err(e) => Err(e),
                        Ok(image) => match album_of(v) {
                            Err(e) => Err(e),
                            Ok(album) => match text_member(v, "url"@) {
                                None => Err(DecodeError::MissingField(Field::Url)),
                                Some(url) => Ok(NowPlayingTrackView { artist, name, image, album, url }),
                            },
                        },
                    },
                },
            },
        },
    }
}

/// The element carries `@attr.nowplaying` with the text `true`; any other
/// shape means that it is not playing now.
pub open spec fn now_playing_marked(v: Json) -> bool {
    match member(v, "@attr"@) {
        Some(attr) => text_member(attr, "nowplaying"@) == Some("true"@),
        None => false,
    }
}

/// The play time of a track element: a date object under `date`.
pub open spec fn play_time_of(v: Json) -> Result<i64, DecodeError> {
    match member(v, "date"@) {
        Some(d) => if is_object(d) {
            date_of(d)
        } else {
            Err(DecodeError::MissingField(Field::Date))
        },
        None => Err(DecodeError::MissingField(Field::Date)),
    }
}

pub open spec fn recorded_view(f: NowPlayingTrackView, date: i64) -> RecordedTrackView {
    RecordedTrackView { artist: f.artist, name: f.name, image: f.image, album: f.album, url: f.url, date }
}

/// What decoding `v` as a track element gives.
pub open spec fn track_of(v: Json) -> Result<TrackView, DecodeError> {
    match track_fields_of(v) {
        Err(e) => Err(e),
        Ok(f) => if now_playing_marked(v) {
            Ok(TrackView::NowPlaying(f))
        } else {
            match play_time_of(v) {
                Err(e) => Err(e),
                Ok(date) => Ok(TrackView::Recorded(recorded_view(f, date))),
            }
        },
    }
}

/// Whether the track element `value` is marked as playing now. Any shape
/// other than `@attr.nowplaying` equal to `"true"` gives `false`.
pub fn is_now_playing(value: &Json) -> (r: bool)
    ensures
        r == now_playing_marked(*value),
{
    match value.get("@attr") {
        Some(attr) => match attr.get_str("nowplaying") {
            Some(marker) => text_is(marker, "true"),
            None => false,
        },
        None => false,
    }
}

fn album_from_json(v: &Json) -> (r: Result<String, DecodeError>)
    ensures
        match r {
            Ok(s) => album_of(*v) == Ok::<Seq<char>, DecodeError>(s@),
            Err(e) => album_of(*v) == Err::<Seq<char>, DecodeError>(e),
        },
{
    match v.get("album") {
        Some(album) => {
            if album.is_object() {
                match album.get_str("#text") {
                    Some(title) => Ok(title.clone()),
                    None => Err(DecodeError::MissingField(Field::Text)),
                }
            } else {
                Err(DecodeError::MissingField(Field::Album))
            }
        },
        None => Err(DecodeError::MissingField(Field::Album)),
    }
}

fn fields_from_json(v: &Json) -> (r: Result<NowPlayingTrack, DecodeError>)
    ensures
        match r {
            Ok(t) => track_fields_of(*v) == Ok::<NowPlayingTrackView, DecodeError>(t@),
            Err(e) => track_fields_of(*v) == Err::<NowPlayingTrackView, DecodeError>(e),
        },
{
    let artist = match v.get("artist") {
        Some(a) => Artist::from_json(a)?,
        None => return Err(DecodeError::MissingField(Field::Artist)),
    };
    let name = match v.get_str("name") {
        Some(s) => s.clone(),
        None => return Err(DecodeError::MissingField(Field::Name)),
    };
    let image = match v.get("image") {
        Some(images) => ImageSet::from_json(images)?,
        None => return Err(DecodeError::MissingField(Field::Image)),
    };
    let album = album_from_json(v)?;
    let url = match v.get_str("url") {
        Some(s) => s.clone(),
        None => return Err(DecodeError::MissingField(Field::Url)),
    };
    Ok(NowPlayingTrack { artist, name, image, album, url })
}

fn play_time_from_json(v: &Json) -> (r: Result<LfmDate, DecodeError>)
    ensures
        match r {
            Ok(d) => play_time_of(*v) == Ok::<i64, DecodeError>(d@),
            Err(e) => play_time_of(*v) == Err::<i64, DecodeError>(e),
        },
{
    match v.get("date") {
        Some(d) => {
            if d.is_object() {
                LfmDate::from_json(d)
            } else {
                Err(DecodeError::MissingField(Field::Date))
            }
        },
        None => Err(DecodeError::MissingField(Field::Date)),
    }
}

impl Track {
    /// Decodes one track element of a page. An element marked as playing now
    /// gives `NowPlaying` and needs no play time; any other gives `Recorded`
    /// and needs one.
    pub fn from_json(v: &Json) -> (r: Result<Track, DecodeError>)
        ensures
            match r {
                Ok(t) => track_of(*v) == Ok::<TrackView, DecodeError>(t@),
                Err(e) => track_of(*v) == Err::<TrackView, DecodeError>(e),
            },
    {
        let fields = fields_from_json(v)?;
        if is_now_playing(v) {
            return Ok(Track::NowPlaying(fields));
        }
        let date = play_time_from_json(v)?;
        let NowPlayingTrack { artist, name, image, album, url } = fields;
        Ok(Track::Recorded(RecordedTrack { artist, name, image, album, url, date }))
    }

    /// The track element that decodes to this track.
    pub fn to_json(&self) -> (r: Json)
        ensures
            track_of(r) == Ok::<TrackView, DecodeError>(self@),
    {
        match self {
            Track::NowPlaying(t) => t.to_json(),
            Track::Recorded(t) => t.to_json(),
        }
    }
}

/// The members that every track element carries.
fn common_members(
    artist: &Artist,
    name: &String,
    image: &ImageSet,
    album: &String,
    url: &String,
) -> (r: Vec<(String, Json)>)
    ensures
        r@.len() == 5,
        r@[0].0@ == "artist"@ && artist_of(r@[0].1) == Ok::<ArtistView, DecodeError>(artist@),
        r@[1].0@ == "name"@ && r@[1].1 is Str && r@[1].1->Str_0@ == name@,
        r@[2].0@ == "image"@ && image_set_of(r@[2].1) == Ok::<ImageSetView, DecodeError>(image@),
        r@[3].0@ == "album"@ && is_object(r@[3].1) && text_member(r@[3].1, "#text"@) == Some(album@),
        r@[4].0@ == "url"@ && r@[4].1 is Str && r@[4].1->Str_0@ == url@,
{
    let album_obj = Json::Object(vec![("#text".to_owned(), Json::Str(album.clone()))]);
    proof {
        crate::json::lemma_lookup_at(album_obj->Object_0@, "#text"@, 0);
    }
    vec![
        ("artist".to_owned(), artist.to_json()),
        ("name".to_owned(), Json::Str(name.clone())),
        ("image".to_owned(), image.to_json()),
        ("album".to_owned(), album_obj),
        ("url".to_owned(), Json::Str(url.clone())),
    ]
}

impl NowPlayingTrack {
    /// The track element, marked as playing now, that decodes to this track.
    pub fn to_json(&self) -> (r: Json)
        ensures
            track_of(r) == Ok::<TrackView, DecodeError>(TrackView::NowPlaying(self@)),
    {
        let mut members = common_members(&self.artist, &self.name, &self.image, &self.album, &self.url);
        let marker = Json::Object(vec![("nowplaying".to_owned(), Json::Str("true".to_owned()))]);
        proof {
            crate::json::lemma_lookup_at(marker->Object_0@, "nowplaying"@, 0);
        }
        members.push(("@attr".to_owned(), marker));
        let r = Json::Object(members);
        proof {
            lemma_track_keys_distinct();
            let ms = r->Object_0@;
            crate::json::lemma_lookup_at(ms, "artist"@, 0);
            crate::json::lemma_lookup_at(ms, "name"@, 1);
            crate::json::lemma_lookup_at(ms, "image"@, 2);
            crate::json::lemma_lookup_at(ms, "album"@, 3);
            crate::json::lemma_lookup_at(ms, "url"@, 4);
            crate::json::lemma_lookup_at(ms, "@attr"@, 5);
        }
        r
    }
}

impl RecordedTrack {
    /// The track element, with its play time, that decodes to this track.
    pub fn to_json(&self) -> (r: Json)
        ensures
            track_of(r) == Ok::<TrackView, DecodeError>(TrackView::Recorded(self@)),
    {
        let mut members = common_members(&self.artist, &self.name, &self.image, &self.album, &self.url);
        members.push(("date".to_owned(), self.date.to_json()));
        let r = Json::Object(members);
        proof {
            lemma_track_keys_distinct();
            let ms = r->Object_0@;
            crate::json::lemma_lookup_at(ms, "artist"@, 0);
            crate::json::lemma_lookup_at(ms, "name"@, 1);
            crate::json::lemma_lookup_at(ms, "image"@, 2);
            crate::json::lemma_lookup_at(ms, "album"@, 3);
            crate::json::lemma_lookup_at(ms, "url"@, 4);
            crate::json::lemma_lookup_at(ms, "date"@, 5);
            crate::json::lemma_lookup_absent(ms, "@attr"@);
        }
        r
    }
}

/// A track element whose common members decode is `NowPlaying` exactly when
/// it carries `@attr.nowplaying` equal to `"true"`; otherwise it is
/// `Recorded` where its play time decodes, and fails where it does not.
pub proof fn lemma_now_playing_discrimination(v: Json)
    requires
        track_fields_of(v) is Ok,
    ensures
        now_playing_marked(v) ==> track_of(v) == Ok::<TrackView, DecodeError>(
            TrackView::NowPlaying(track_fields_of(v)->Ok_0),
        ),
        !now_playing_marked(v) && play_time_of(v) is Ok ==> track_of(v) is Ok && track_of(v)->Ok_0 is Recorded
            && track_of(v)->Ok_0->Recorded_0.date == play_time_of(v)->Ok_0,
        !now_playing_marked(v) && play_time_of(v) is Err ==> track_of(v) is Err,
{
}

/// The keys of a track element are different texts.
proof fn lemma_track_keys_distinct()
    ensures
        "artist"@ != "name"@,
        "artist"@ != "image"@,
        "artist"@ != "album"@,
        "artist"@ != "url"@,
        "artist"@ != "@attr"@,
        "artist"@ != "date"@,
        "name"@ != "image"@,
        "name"@ != "album"@,
        "name"@ != "url"@,
        "name"@ != "@attr"@,
        "name"@ != "date"@,
        "image"@ != "album"@,
        "image"@ != "url"@,
        "image"@ != "@attr"@,
        "image"@ != "date"@,
        "album"@ != "url"@,
        "album"@ != "@attr"@,
        "album"@ != "date"@,
        "url"@ != "@attr"@,
        "url"@ != "date"@,
        "@attr"@ != "date"@,
{
    reveal_strlit("artist");
    reveal_strlit("name");
    reveal_strlit("image");
    reveal_strlit("album");
    reveal_strlit("url");
    reveal_strlit("@attr");
    reveal_strlit("date");
    assert("artist"@.len() != "name"@.len());
    assert("artist"@.len() != "image"@.len());
    assert("artist"@.len() != "album"@.len());
    assert("artist"@.len() != "url"@.len());
    assert("artist"@.len() != "@attr"@.len());
    assert("artist"@.len() != "date"@.len());
    assert("name"@.len() != "image"@.len());
    assert("name"@.len() != "album"@.len());
    assert("name"@.len() != "url"@.len());
    assert("name"@.len() != "@attr"@.len());
    assert("name"@[0] != "date"@[0]);
    assert("image"@[0] != "album"@[0]);
    assert("image"@.len() != "url"@.len());
    assert("image"@[0] != "@attr"@[0]);
    assert("image"@.len() != "date"@.len());
    assert("album"@.len() != "url"@.len());
    assert("album"@[0] != "@attr"@[0]);
    assert("album"@.len() != "date"@.len());
    assert("url"@.len() != "@attr"@.len());
    assert("url"@.len() != "date"@.len());
    assert("@attr"@.len() != "date"@.len());
}

} // verus!
