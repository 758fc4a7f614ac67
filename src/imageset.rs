//! The size-keyed list of image URLs, read into one record.
use vstd::prelude::*;
use crate::errors::{DecodeError, Field};
use crate::json::{json_text, text_is, text_member, Json};

verus! {

/// Image URLs by size; a size that the payload does not list is `None`.
#[derive(Debug)]
pub struct ImageSet {
    pub small: Option<String>,
    pub medium: Option<String>,
    pub large: Option<String>,
    pub extralarge: Option<String>,
}

pub struct ImageSetView {
    pub small: Option<Seq<char>>,
    pub medium: Option<Seq<char>>,
    pub large: Option<Seq<char>>,
    pub extralarge: Option<Seq<char>>,
}

pub open spec fn opt_text(o: Option<String>) -> Option<Seq<char>> {
    match o {
        Some(s) => Some(s@),
        None => None,
    }
}

impl View for ImageSet {
    type V = ImageSetView;

    open spec fn view(&self) -> ImageSetView {
        ImageSetView {
            small: opt_text(self.small),
            medium: opt_text(self.medium),
            large: opt_text(self.large),
            extralarge: opt_text(self.extralarge),
        }
    }
}

pub open spec fn no_images() -> ImageSetView {
    ImageSetView { small: None, medium: None, large: None, extralarge: None }
}

/// `set` with the URL of size `size` set to `url`; an unknown size changes nothing.
pub open spec fn with_image(set: ImageSetView, size: Seq<char>, url: Seq<char>) -> ImageSetView {
    if size == "small"@ {
        ImageSetView { small: Some(url), medium: set.medium, large: set.large, extralarge: set.extralarge }
    } else if size == "medium"@ {
        ImageSetView { small: set.small, medium: Some(url), large: set.large, extralarge: set.extralarge }
    } else if size == "large"@ {
        ImageSetView { small: set.small, medium: set.medium, large: Some(url), extralarge: set.extralarge }
    } else if size == "extralarge"@ {
        ImageSetView { small: set.small, medium: set.medium, large: set.large, extralarge: Some(url) }
    } else {
        set
    }
}

/// The size label and URL of one entry of an image list.
pub open spec fn image_entry_of(v: Json) -> Result<(Seq<char>, Seq<char>), DecodeError> {
    match text_member(v, "size"@) {
        None => Err(DecodeError::MissingField(Field::Size)),
        Some(size) => match text_member(v, "#text"@) {
            None => Err(DecodeError::MissingField(Field::Text)),
            Some(url) => Ok((size, url)),
        },
    }
}

/// The images that a list of entries gives, each entry over the ones before it.
pub open spec fn images_of(items: Seq<Json>) -> Result<ImageSetView, DecodeError>
    decreases items.len(),
{
    if items.len() == 0 {
        Ok(no_images())
    } else {
        match images_of(items.drop_last()) {
            Err(e) => Err(e),
            Ok(set) => match image_entry_of(items.last()) {
                Err(e) => Err(e),
                Ok(entry) => Ok(with_image(set, entry.0, entry.1)),
            },
        }
    }
}

/// What decoding `v` as an image list gives.
pub open spec fn image_set_of(v: Json) -> Result<ImageSetView, DecodeError> {
    match v {
        Json::Array(items) => images_of(items@),
        _ => Err(DecodeError::MissingField(Field::Image)),
    }
}

/// The slot of `set` that the size label `label` names.
pub open spec fn image_slot(set: ImageSetView, label: Seq<char>) -> Option<Seq<char>> {
    if label == "small"@ {
        set.small
    } else if label == "medium"@ {
        set.medium
    } else if label == "large"@ {
        set.large
    } else {
        set.extralarge
    }
}

/// The four size labels.
pub open spec fn is_size_label(label: Seq<char>) -> bool {
    label == "small"@ || label == "medium"@ || label == "large"@ || label == "extralarge"@
}

/// The four size labels, and the two keys of an entry, are different texts.
proof fn lemma_size_labels_distinct()
    ensures
        "small"@ != "medium"@,
        "small"@ != "large"@,
        "small"@ != "extralarge"@,
        "medium"@ != "large"@,
        "medium"@ != "extralarge"@,
        "large"@ != "extralarge"@,
        "size"@ != "#text"@,
{
    reveal_strlit("small");
    reveal_strlit("medium");
    reveal_strlit("large");
    reveal_strlit("extralarge");
    reveal_strlit("size");
    reveal_strlit("#text");
    assert("small"@[0] != "medium"@[0]);
    assert("small"@[0] != "large"@[0]);
    assert("small"@[0] != "extralarge"@[0]);
    assert("medium"@[0] != "large"@[0]);
    assert("medium"@[0] != "extralarge"@[0]);
    assert("large"@[0] != "extralarge"@[0]);
    assert("size"@[0] != "#text"@[0]);
}

/// In a list whose entries all carry a size and a URL, the decoded set has
/// the slot of each size label filled exactly when some entry carries that
/// label; the others stay empty.
pub proof fn lemma_image_slots(items: Seq<Json>, label: Seq<char>)
    requires
        forall|i: int| 0 <= i < items.len() ==> (#[trigger] image_entry_of(items[i])) is Ok,
        is_size_label(label),
    ensures
        images_of(items) is Ok,
        (image_slot(images_of(items)->Ok_0, label) is Some) <==> exists|i: int|
            0 <= i < items.len() && text_member(#[trigger] items[i], "size"@) == Some(label),
    decreases items.len(),
{
    lemma_size_labels_distinct();
    if items.len() > 0 {
        let prefix = items.drop_last();
        assert forall|i: int| 0 <= i < prefix.len() implies (#[trigger] image_entry_of(prefix[i])) is Ok by {
            assert(prefix[i] == items[i]);
        }
        lemma_image_slots(prefix, label);
        assert(image_entry_of(items[items.len() - 1]) is Ok);
        if exists|i: int| 0 <= i < prefix.len() && text_member(#[trigger] prefix[i], "size"@) == Some(label) {
            let i = choose|i: int| 0 <= i < prefix.len() && text_member(#[trigger] prefix[i], "size"@) == Some(label);
            assert(items[i] == prefix[i]);
        }
        if exists|i: int| 0 <= i < items.len() && text_member(#[trigger] items[i], "size"@) == Some(label) {
            let i = choose|i: int| 0 <= i < items.len() && text_member(#[trigger] items[i], "size"@) == Some(label);
            if i < items.len() - 1 {
                assert(prefix[i] == items[i]);
            }
        }
    }
}

/// A list in which some entry lacks its size or its URL does not decode, and
/// the error names a missing field.
pub proof fn lemma_image_entry_missing(items: Seq<Json>, i: int)
    requires
        0 <= i < items.len(),
        image_entry_of(items[i]) is Err,
    ensures
        images_of(items) is Err,
        images_of(items)->Err_0 is MissingField,
    decreases items.len(),
{
    lemma_image_errors(items);
    if i < items.len() - 1 {
        assert(items.drop_last()[i] == items[i]);
        lemma_image_entry_missing(items.drop_last(), i);
    }
}

proof fn lemma_image_errors(items: Seq<Json>)
    ensures
        images_of(items) is Err ==> images_of(items)->Err_0 is MissingField,
    decreases items.len(),
{
    if items.len() > 0 {
        lemma_image_errors(items.drop_last());
    }
}

/// One entry of an image list.
fn image_entry(size: &str, url: &String) -> (r: Json)
    ensures
        image_entry_of(r) == Ok::<(Seq<char>, Seq<char>), DecodeError>((size@, url@)),
{
    let r = Json::Object(vec![("size".to_owned(), json_text(size)), ("#text".to_owned(), json_text(url.as_str()))]);
    proof {
        lemma_size_labels_distinct();
        let members = r->Object_0@;
        assert(crate::json::lookup_from(members, "#text"@, 0) == crate::json::lookup_from(members, "#text"@, 1));
    }
    r
}

impl ImageSet {
    /// Decodes an image list: each entry's `size` picks the slot that its
    /// `#text` fills, later entries over earlier ones; an unknown size is
    /// skipped, and an entry without a size or a URL fails the whole list.
    pub fn from_json(v: &Json) -> (r: Result<ImageSet, DecodeError>)
        ensures
            match r {
                Ok(set) => image_set_of(*v) == Ok::<ImageSetView, DecodeError>(set@),
                Err(e) => image_set_of(*v) == Err::<ImageSetView, DecodeError>(e),
            },
    {
        let items = match v {
            Json::Array(items) => items,
            _ => return Err(DecodeError::MissingField(Field::Image)),
        };
        let mut set = ImageSet { small: None, medium: None, large: None, extralarge: None };
        let mut i: usize = 0;
        while i < items.len()
            invariant
                0 <= i <= items@.len(),
                image_set_of(*v) == images_of(items@),
                images_of(items@.take(i as int)) == Ok::<ImageSetView, DecodeError>(set@),
            decreases items@.len() - i,
        {
            let item = &items[i];
            assert(items@.take(i + 1).drop_last() =~= items@.take(i as int));
            let size = match item.get_str("size") {
                Some(size) => size,
                None => {
                    proof { lemma_prefix_error(items@, i as int + 1); }
                    return Err(DecodeError::MissingField(Field::Size));
                },
            };
            let url = match item.get_str("#text") {
                Some(url) => url,
                None => {
                    proof { lemma_prefix_error(items@, i as int + 1); }
                    return Err(DecodeError::MissingField(Field::Text));
                },
            };
            if text_is(size, "small") {
                set.small = Some(url.clone());
            } else if text_is(size, "medium") {
                set.medium = Some(url.clone());
            } else if text_is(size, "large") {
                set.large = Some(url.clone());
            } else if text_is(size, "extralarge") {
                set.extralarge = Some(url.clone());
            }
            i = i + 1;
        }
        assert(items@.take(items@.len() as int) =~= items@);
        Ok(set)
    }

    /// The image list that decodes to this set: one entry per filled slot.
    pub fn to_json(&self) -> (r: Json)
        ensures
            image_set_of(r) == Ok::<ImageSetView, DecodeError>(self@),
    {
        proof { lemma_size_labels_distinct(); }
        let mut items: Vec<Json> = Vec::new();
        let ghost mut set = no_images();
        if let Some(url) = &self.small {
            let e = image_entry("small", url);
            items.push(e);
            proof {
                assert(items@.drop_last() =~= Seq::<Json>::empty());
                set = with_image(set, "small"@, url@);
            }
        }
        assert(images_of(items@) == Ok::<ImageSetView, DecodeError>(set));
        let ghost before = items@;
        if let Some(url) = &self.medium {
            items.push(image_entry("medium", url));
            proof {
                assert(items@.drop_last() =~= before);
                set = with_image(set, "medium"@, url@);
            }
        }
        assert(images_of(items@) == Ok::<ImageSetView, DecodeError>(set));
        let ghost before = items@;
        if let Some(url) = &self.large {
            items.push(image_entry("large", url));
            proof {
                assert(items@.drop_last() =~= before);
                set = with_image(set, "large"@, url@);
            }
        }
        assert(images_of(items@) == Ok::<ImageSetView, DecodeError>(set));
        let ghost before = items@;
        if let Some(url) = &self.extralarge {
            items.push(image_entry("extralarge", url));
            proof {
                assert(items@.drop_last() =~= before);
                set = with_image(set, "extralarge"@, url@);
            }
        }
        assert(images_of(items@) == Ok::<ImageSetView, DecodeError>(set));
        assert(set == self@);
        Json::Array(items)
    }
}

/// Where the first `n - 1` entries decode and the entry at `n - 1` does not,
/// the list fails with that entry's error.
proof fn lemma_prefix_error(items: Seq<Json>, n: int)
    requires
        0 < n <= items.len(),
        images_of(items.take(n - 1)) is Ok,
        image_entry_of(items[n - 1]) is Err,
    ensures
        images_of(items) == Err::<ImageSetView, DecodeError>(image_entry_of(items[n - 1])->Err_0),
    decreases items.len(),
{
    if n < items.len() {
        assert(items.drop_last().take(n - 1) =~= items.take(n - 1));
        assert(items.drop_last()[n - 1] == items[n - 1]);
        lemma_prefix_error(items.drop_last(), n);
    } else {
        assert(items.drop_last() =~= items.take(n - 1));
    }
}

} // verus!
