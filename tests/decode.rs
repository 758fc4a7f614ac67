use lastfm::artist::Artist;
use lastfm::imageset::ImageSet;
use lastfm::lfm_date::LfmDate;
use lastfm::recent_tracks_page::{RecentTracksPage, RecentTracksResponse};
use lastfm::track::{is_now_playing, NowPlayingTrack, RecordedTrack, Track};
use lastfm::{DecodeError, Field, Json};

fn s(text: &str) -> Json {
    Json::Str(text.to_string())
}

fn obj(members: Vec<(&str, Json)>) -> Json {
    Json::Object(members.into_iter().map(|(k, v)| (k.to_string(), v)).collect())
}

fn image(size: &str, url: &str) -> Json {
    obj(vec![("#text", s(url)), ("size", s(size))])
}

fn images(prefix: &str) -> Json {
    Json::Array(vec![
        image("small", &format!("{prefix}/s.png")),
        image("medium", &format!("{prefix}/m.png")),
        image("large", &format!("{prefix}/l.png")),
        image("extralarge", &format!("{prefix}/xl.png")),
    ])
}

fn artist_json() -> Json {
    obj(vec![
        ("url", s("https://www.last.fm/music/Kyuss")),
        ("name", s("Kyuss")),
        ("image", images("https://img/artist")),
        ("mbid", s("")),
    ])
}

fn track_json(name: &str, uts: Option<&str>, now_playing: Option<Json>) -> Json {
    let mut members = vec![
        ("artist", artist_json()),
        ("streamable", s("0")),
        ("image", images("https://img/track")),
        ("mbid", s("")),
        ("album", obj(vec![("mbid", s("")), ("#text", s("Welcome to Sky Valley"))])),
        ("name", s(name)),
        ("url", s("https://www.last.fm/music/Kyuss/_/Gardenia")),
        ("loved", s("0")),
    ];
    if let Some(attr) = now_playing {
        members.push(("@attr", attr));
    }
    if let Some(uts) = uts {
        members.push(("date", obj(vec![("uts", s(uts)), ("#text", s("13 Feb 2023, 10:28"))])));
    }
    obj(members)
}

fn now_playing_attr(value: &str) -> Json {
    obj(vec![("nowplaying", s(value))])
}

fn page_json(total: &str, tracks: Vec<Json>) -> Json {
    obj(vec![(
        "recenttracks",
        obj(vec![
            ("track", Json::Array(tracks)),
            (
                "@attr",
                obj(vec![
                    ("user", s("loige")),
                    ("totalPages", s("1")),
                    ("page", s("1")),
                    ("perPage", s("50")),
                    ("total", s(total)),
                ]),
            ),
        ]),
    )])
}

#[test]
fn imageset_it_deserializes_correctly() {
    let json_value = Json::Array(vec![image("small", "https://url1.com")]);

    let image_set = ImageSet::from_json(&json_value).unwrap();

    assert_eq!(image_set.small, Some("https://url1.com".to_string()));
    assert_eq!(image_set.medium, None);
    assert_eq!(image_set.large, None);
    assert_eq!(image_set.extralarge, None);
}

#[test]
fn it_deserializes_everything_correctly() {
    let json_value = Json::Array(vec![
        image("small", "https://url1.com"),
        image("medium", "https://url2.com"),
        image("large", "https://url3.com"),
        image("extralarge", "https://url4.com"),
    ]);

    let image_set = ImageSet::from_json(&json_value).unwrap();

    assert_eq!(image_set.small, Some("https://url1.com".to_string()));
    assert_eq!(image_set.medium, Some("https://url2.com".to_string()));
    assert_eq!(image_set.large, Some("https://url3.com".to_string()));
    assert_eq!(image_set.extralarge, Some("https://url4.com".to_string()));
}

#[test]
fn it_fails_with_missing_fields() {
    let json_value = Json::Array(vec![obj(vec![("size", s("small"))])]);

    let image_set = ImageSet::from_json(&json_value);
    assert_eq!("missing field `#text`", image_set.unwrap_err().to_string());

    let json_value = Json::Array(vec![obj(vec![("#text", s("blah"))])]);

    let image_set = ImageSet::from_json(&json_value);
    assert_eq!("missing field `size`", image_set.unwrap_err().to_string());
}

#[test]
fn image_list_with_two_labels_sets_exactly_two_slots() {
    let json_value = Json::Array(vec![image("large", "https://l"), image("small", "https://s")]);
    let image_set = ImageSet::from_json(&json_value).unwrap();
    assert_eq!(image_set.small, Some("https://s".to_string()));
    assert_eq!(image_set.medium, None);
    assert_eq!(image_set.large, Some("https://l".to_string()));
    assert_eq!(image_set.extralarge, None);
}

#[test]
fn empty_image_list_sets_nothing() {
    let image_set = ImageSet::from_json(&Json::Array(vec![])).unwrap();
    assert_eq!(image_set.small, None);
    assert_eq!(image_set.medium, None);
    assert_eq!(image_set.large, None);
    assert_eq!(image_set.extralarge, None);
}

#[test]
fn image_list_skips_unknown_sizes_and_later_entries_win() {
    let json_value = Json::Array(vec![
        image("mega", "https://mega"),
        image("medium", "https://first"),
        image("medium", "https://second"),
    ]);
    let image_set = ImageSet::from_json(&json_value).unwrap();
    assert_eq!(image_set.small, None);
    assert_eq!(image_set.medium, Some("https://second".to_string()));
    assert_eq!(image_set.large, None);
    assert_eq!(image_set.extralarge, None);
}

#[test]
fn image_list_fails_on_a_later_bad_entry() {
    let json_value = Json::Array(vec![image("small", "https://s"), obj(vec![("size", s("large"))])]);
    assert_eq!(ImageSet::from_json(&json_value).unwrap_err(), DecodeError::MissingField(Field::Text));
    assert_eq!(ImageSet::from_json(&s("nope")).unwrap_err(), DecodeError::MissingField(Field::Image));
}

#[test]
fn lfm_date_it_deserializes_correctly() {
    let json_value = obj(vec![("uts", s("1676284092")), ("#text", s("13 Feb 2023, 10:28"))]);

    let lfm_date = LfmDate::from_json(&json_value).unwrap();
    let expected = "2023-02-13 10:28:12 UTC";
    assert_eq!(lfm_date.to_string(), expected);
}

#[test]
fn lfm_date_parses_the_seconds() {
    let date = LfmDate::from_json(&obj(vec![("uts", s("1676284092"))])).unwrap();
    assert_eq!(date.timestamp(), 1676284092);
    let date = LfmDate::from_json(&obj(vec![("uts", s("-86400"))])).unwrap();
    assert_eq!(date.to_string(), "1969-12-31 00:00:00 UTC");
}

#[test]
fn lfm_date_rejects_bad_timestamps() {
    assert_eq!(LfmDate::from_json(&obj(vec![("uts", s("12a"))])).unwrap_err(), DecodeError::InvalidTimestamp);
    assert_eq!(
        LfmDate::from_json(&obj(vec![("uts", s("99999999999999999999"))])).unwrap_err(),
        DecodeError::InvalidTimestamp
    );
    assert_eq!(
        LfmDate::from_json(&obj(vec![("uts", s("9223372036854775807"))])).unwrap_err(),
        DecodeError::InvalidTimestamp
    );
    assert_eq!(LfmDate::from_json(&obj(vec![("text", s("1"))])).unwrap_err(), DecodeError::MissingField(Field::Uts));
    assert!(LfmDate::from_timestamp(i64::MAX).is_none());
    assert_eq!(LfmDate::from_timestamp(0).unwrap().to_string(), "1970-01-01 00:00:00 UTC");
}

#[test]
fn test_now_playing() {
    let track = Track::from_json(&track_json("Gardenia", None, Some(now_playing_attr("true")))).unwrap();
    match track {
        Track::NowPlaying(t) => {
            assert_eq!(t.name, "Gardenia");
            assert_eq!(t.album, "Welcome to Sky Valley");
            assert_eq!(t.url, "https://www.last.fm/music/Kyuss/_/Gardenia");
            assert_eq!(t.artist.name, "Kyuss");
            assert_eq!(t.artist.url, "https://www.last.fm/music/Kyuss");
            assert_eq!(t.artist.image.small, Some("https://img/artist/s.png".to_string()));
            assert_eq!(t.image.extralarge, Some("https://img/track/xl.png".to_string()));
        }
        Track::Recorded(_) => panic!("expected a track playing now"),
    }
}

#[test]
fn test_recorded() {
    let track = Track::from_json(&track_json("Gardenia", Some("1676284092"), None)).unwrap();
    match track {
        Track::Recorded(t) => {
            assert_eq!(t.name, "Gardenia");
            assert_eq!(t.album, "Welcome to Sky Valley");
            assert_eq!(t.artist.name, "Kyuss");
            assert_eq!(t.image.medium, Some("https://img/track/m.png".to_string()));
            assert_eq!(t.date.timestamp(), 1676284092);
            assert_eq!(t.date.to_string(), "2023-02-13 10:28:12 UTC");
        }
        Track::NowPlaying(_) => panic!("expected a recorded track"),
    }
}

#[test]
fn now_playing_marker_other_than_true_gives_recorded() {
    for attr in [Some(now_playing_attr("false")), Some(obj(vec![])), Some(s("true")), None] {
        let v = track_json("Gardenia", Some("1676284092"), attr);
        assert!(!is_now_playing(&v));
        assert!(matches!(Track::from_json(&v), Ok(Track::Recorded(_))));
    }
    let v = track_json("Gardenia", Some("1676284092"), Some(now_playing_attr("true")));
    assert!(is_now_playing(&v));
    assert!(matches!(Track::from_json(&v), Ok(Track::NowPlaying(_))));
}

#[test]
fn recorded_track_without_valid_date_fails() {
    let v = track_json("Gardenia", None, Some(now_playing_attr("false")));
    assert_eq!(Track::from_json(&v).unwrap_err(), DecodeError::MissingField(Field::Date));
    let v = track_json("Gardenia", Some("yesterday"), None);
    assert_eq!(Track::from_json(&v).unwrap_err(), DecodeError::InvalidTimestamp);
}

#[test]
fn track_reports_the_missing_field() {
    assert_eq!(Track::from_json(&s("x")).unwrap_err(), DecodeError::MissingField(Field::Artist));
    let v = obj(vec![("artist", artist_json())]);
    assert_eq!(Track::from_json(&v).unwrap_err(), DecodeError::MissingField(Field::Name));
    let v = obj(vec![("artist", artist_json()), ("name", s("n")), ("image", Json::Array(vec![]))]);
    assert_eq!(Track::from_json(&v).unwrap_err(), DecodeError::MissingField(Field::Album));
    let v = obj(vec![
        ("artist", artist_json()),
        ("name", s("n")),
        ("image", Json::Array(vec![])),
        ("album", obj(vec![("mbid", s(""))])),
    ]);
    assert_eq!(Track::from_json(&v).unwrap_err(), DecodeError::MissingField(Field::Text));
    let v = obj(vec![
        ("artist", artist_json()),
        ("name", s("n")),
        ("image", Json::Array(vec![])),
        ("album", obj(vec![("#text", s("a"))])),
    ]);
    assert_eq!(Track::from_json(&v).unwrap_err(), DecodeError::MissingField(Field::Url));
    let v = obj(vec![("artist", obj(vec![("name", s("n"))]))]);
    assert_eq!(Track::from_json(&v).unwrap_err(), DecodeError::MissingField(Field::Url));
}

#[test]
fn artist_decodes_and_round_trips() {
    let artist = Artist::from_json(&artist_json()).unwrap();
    assert_eq!(artist.name, "Kyuss");
    let again = Artist::from_json(&artist.to_json()).unwrap();
    assert_eq!(again.name, artist.name);
    assert_eq!(again.url, artist.url);
    assert_eq!(again.image.large, artist.image.large);
}

#[test]
fn recorded_track_round_trips() {
    let track = Track::from_json(&track_json("Gardenia", Some("-42"), None)).unwrap();
    let again = Track::from_json(&track.to_json()).unwrap();
    match (track, again) {
        (Track::Recorded(a), Track::Recorded(b)) => {
            assert_eq!(a.name, b.name);
            assert_eq!(a.album, b.album);
            assert_eq!(a.url, b.url);
            assert_eq!(a.date, b.date);
            assert_eq!(b.date.timestamp(), -42);
            assert_eq!(a.image.small, b.image.small);
            assert_eq!(a.artist.name, b.artist.name);
        }
        _ => panic!("expected two recorded tracks"),
    }
}

#[test]
fn now_playing_track_round_trips() {
    let t = NowPlayingTrack {
        artist: Artist {
            image: ImageSet { small: None, medium: Some(String::new()), large: None, extralarge: None },
            name: "A".to_string(),
            url: "u".to_string(),
        },
        name: "N".to_string(),
        image: ImageSet { small: Some("s".to_string()), medium: None, large: None, extralarge: Some("x".to_string()) },
        album: "".to_string(),
        url: "v".to_string(),
    };
    match Track::from_json(&t.to_json()).unwrap() {
        Track::NowPlaying(b) => {
            assert_eq!(b.name, "N");
            assert_eq!(b.album, "");
            assert_eq!(b.url, "v");
            assert_eq!(b.artist.image.medium, Some(String::new()));
            assert_eq!(b.artist.image.small, None);
            assert_eq!(b.image.small, Some("s".to_string()));
            assert_eq!(b.image.extralarge, Some("x".to_string()));
            assert_eq!(b.image.large, None);
        }
        Track::Recorded(_) => panic!("expected a track playing now"),
    }
    let r = RecordedTrack {
        artist: t.artist,
        name: t.name,
        image: t.image,
        album: t.album,
        url: t.url,
        date: LfmDate::from_timestamp(1676284092).unwrap(),
    };
    match Track::from_json(&r.to_json()).unwrap() {
        Track::Recorded(b) => assert_eq!(b.date.timestamp(), 1676284092),
        Track::NowPlaying(_) => panic!("expected a recorded track"),
    }
}

#[test]
fn recent_tracks_page_it_deserializes_a_recent_tracks_page() {
    let v = page_json(
        "290827",
        vec![
            track_json("Now", None, Some(now_playing_attr("true"))),
            track_json("Second", Some("1676284092"), None),
            track_json("Third", Some("1676283000"), None),
        ],
    );
    let page = RecentTracksPage::from_json(&v).unwrap();
    assert_eq!(page.total_tracks, 290827);
    assert_eq!(page.tracks.len(), 3);
    assert!(matches!(&page.tracks[0], Track::NowPlaying(t) if t.name == "Now"));
    assert!(matches!(&page.tracks[1], Track::Recorded(t) if t.name == "Second" && t.date.timestamp() == 1676284092));
    assert!(matches!(&page.tracks[2], Track::Recorded(t) if t.name == "Third" && t.date.timestamp() == 1676283000));
}

#[test]
fn page_errors() {
    assert_eq!(
        RecentTracksPage::from_json(&page_json("lots", vec![])).unwrap_err(),
        DecodeError::InvalidTotal
    );
    assert_eq!(RecentTracksPage::from_json(&page_json("+7", vec![])).unwrap().total_tracks, 7);
    assert_eq!(
        RecentTracksPage::from_json(&page_json("-7", vec![])).unwrap_err(),
        DecodeError::InvalidTotal
    );
    let bad = page_json("1", vec![track_json("x", None, None)]);
    assert_eq!(RecentTracksPage::from_json(&bad).unwrap_err(), DecodeError::MissingField(Field::Date));
    let no_attr = obj(vec![("recenttracks", obj(vec![("track", Json::Array(vec![]))]))]);
    assert_eq!(RecentTracksPage::from_json(&no_attr).unwrap_err(), DecodeError::MissingField(Field::Attr));
    let no_list = obj(vec![("recenttracks", obj(vec![("@attr", obj(vec![("total", s("0"))]))]))]);
    assert_eq!(RecentTracksPage::from_json(&no_list).unwrap_err(), DecodeError::MissingField(Field::Track));
    assert_eq!(RecentTracksPage::from_json(&Json::Null).unwrap_err(), DecodeError::MissingField(Field::RecentTracks));
}

#[test]
fn response_is_a_page_or_an_error_envelope() {
    let v = obj(vec![("error", Json::Int(29)), ("message", s("Rate limit exceeded"))]);
    match RecentTracksResponse::from_json(&v).unwrap() {
        RecentTracksResponse::Error(e) => {
            assert_eq!(e.error, 29);
            assert_eq!(e.message, "Rate limit exceeded");
        }
        RecentTracksResponse::RecentTracksPage(_) => panic!("expected an error envelope"),
    }
    let v = page_json("0", vec![]);
    assert!(matches!(RecentTracksResponse::from_json(&v), Ok(RecentTracksResponse::RecentTracksPage(_))));
    let v = obj(vec![("error", Json::Int(1 << 40)), ("message", s("?"))]);
    assert_eq!(RecentTracksResponse::from_json(&v).unwrap_err(), DecodeError::MissingField(Field::RecentTracks));
    let v = obj(vec![("error", Json::Decimal("2.5".to_string())), ("message", s("?"))]);
    assert!(RecentTracksResponse::from_json(&v).is_err());
}

#[test]
fn decode_error_messages() {
    assert_eq!(DecodeError::MissingField(Field::Attr).to_string(), "missing field `@attr`");
    assert_eq!(DecodeError::InvalidTimestamp.to_string(), "Failed to parse uts as i64");
    assert_eq!(DecodeError::InvalidTotal.to_string(), "Failed to parse total");
}
