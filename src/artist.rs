//! The artist of a track.
use vstd::prelude::*;
use crate::errors::{DecodeError, Field};
use crate::imageset::{image_set_of, ImageSet, ImageSetView};
use crate::json::{member, text_member, Json};

verus! {

/// A Last.fm artist.
#[derive(Debug)]
pub struct Artist {
    pub image: ImageSet,
    pub name: String,
    pub url: String,
}

pub struct ArtistView {
    pub image: ImageSetView,
    pub name: Seq<char>,
    pub url: Seq<char>,
}

impl View for Artist {
    type V = ArtistView;

    open spec fn view(&self) -> ArtistView {
        ArtistView { image: self.image@, name: self.name@, url: self.url@ }
    }
}

/// What decoding `v` as an artist gives: a string `name`, a string `url`
/// and an image list under `image`, checked in that order.
pub open spec fn artist_of(v: Json) -> Result<ArtistView, DecodeError> {
    match text_member(v, "name"@) {
        None => Err(DecodeError::MissingField(Field::Name)),
        Some(name) => match text_member(v, "url"@) {
            None => Err(DecodeError::MissingField(Field::Url)),
            Some(url) => match member(v, "image"@) {
                None => Err(DecodeError::MissingField(Field::Image)),
                Some(images) => match image_set_of(images) {
                    Err(e) => Err(e),
                    Ok(image) => Ok(ArtistView { image, name, url }),
                },
            },
        },
    }
}

/// The keys of an artist object are different texts.
proof fn lemma_artist_keys_distinct()
    ensures
        "name"@ != "url"@,
        "name"@ != "image"@,
        "url"@ != "image"@,
{
    reveal_strlit("name");
    reveal_strlit("url");
    reveal_strlit("image");
    assert("name"@[0] != "url"@[0]);
    assert("name"@[0] != "image"@[0]);
    assert("url"@[0] != "image"@[0]);
}

impl Artist {
    /// Decodes an artist object.
    pub fn from_json(v: &Json) -> (r: Result<Artist, DecodeError>)
        ensures
            match r {
                Ok(a) => artist_of(*v) == Ok::<ArtistView, DecodeError>(a@),
                Err(e) => artist_of(*v) == Err::<ArtistView, DecodeError>(e),
            },
    {
        let name = match v.get_str("name") {
            Some(s) => s.clone(),
            None => return Err(DecodeError::MissingField(Field::Name)),
        };
        let url = match v.get_str("url") {
            Some(s) => s.clone(),
            None => return Err(DecodeError::MissingField(Field::Url)),
        };
        let image = match v.get("image") {
            Some(images) => ImageSet::from_json(images)?,
            None => return Err(DecodeError::MissingField(Field::Image)),
        };
        Ok(Artist { image, name, url })
    }

    /// The artist object that decodes to this artist.
    pub fn to_json(&self) -> (r: Json)
        ensures
            artist_of(r) == Ok::<ArtistView, DecodeError>(self@),
    {
        let r = Json::Object(
            vec![
                ("name".to_owned(), Json::Str(self.name.clone())),
                ("url".to_owned(), Json::Str(self.url.clone())),
                ("image".to_owned(), self.image.to_json()),
            ],
        );
        proof {
            lemma_artist_keys_distinct();
            let members = r->Object_0@;
            crate::json::lemma_lookup_at(members, "name"@, 0);
            crate::json::lemma_lookup_at(members, "url"@, 1);
            crate::json::lemma_lookup_at(members, "image"@, 2);
        }
        r
    }
}

} // verus!
