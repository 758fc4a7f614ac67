//! The instant at which a track was played.
use vstd::prelude::*;
use chrono::TimeZone;
use crate::errors::{DecodeError, Field};
use crate::json::{text_member, Json};
use crate::text::{i64_of_text, i64_text, parse_i64};

verus! {

/// Whether a count of seconds since the Unix epoch names one instant that
/// chrono can represent in UTC.
pub uninterp spec fn utc_instant_exists(secs: int) -> bool;

/// chrono's text for the UTC instant `secs` seconds after the Unix epoch,
/// as in `2023-02-13 10:28:12 UTC`.
pub uninterp spec fn utc_text(secs: int) -> Seq<char>;

/// Relies on chrono's `Utc.timestamp_opt(secs, 0)`, which gives one instant
/// for a count of seconds within chrono's range and none outside it.
#[verifier::external_body]
fn instant_exists(secs: i64) -> (r: bool)
    ensures
        r == utc_instant_exists(secs as int),
{
    chrono::Utc.timestamp_opt(secs, 0).single().is_some()
}

/// Relies on chrono's `Display` of a `DateTime<Utc>`, of the instant that
/// `Utc.timestamp_opt(secs, 0)` gives.
#[verifier::external_body]
fn instant_text(secs: i64) -> (r: String)
    requires
        utc_instant_exists(secs as int),
    ensures
        r@ == utc_text(secs as int),
{
    chrono::Utc.timestamp_opt(secs, 0).unwrap().to_string()
}

/// An instant in UTC, to the second.
#[derive(Debug, Clone, Copy, PartialEq, Eq)]
pub struct LfmDate {
    secs: i64,
}

/// What decoding `v` as a date object gives: the seconds since the Unix
/// epoch, written as text in `uts`.
pub open spec fn date_of(v: Json) -> Result<i64, DecodeError> {
    match text_member(v, "uts"@) {
        None => Err(DecodeError::MissingField(Field::Uts)),
        Some(t) => match i64_of_text(t) {
            Some(secs) => if utc_instant_exists(secs as int) {
                Ok(secs)
            } else {
                Err(DecodeError::InvalidTimestamp)
            },
            None => Err(DecodeError::InvalidTimestamp),
        },
    }
}

impl View for LfmDate {
    type V = i64;

    closed spec fn view(&self) -> i64 {
        self.secs
    }
}

impl LfmDate {
    #[verifier::type_invariant]
    closed spec fn wf(self) -> bool {
        utc_instant_exists(self.secs as int)
    }

    /// The instant `secs` seconds after the Unix epoch, where there is one.
    pub fn from_timestamp(secs: i64) -> (r: Option<LfmDate>)
        ensures
            r is Some <==> utc_instant_exists(secs as int),
            r matches Some(d) ==> d@ == secs,
    {
        if instant_exists(secs) {
            Some(LfmDate { secs })
        } else {
            None
        }
    }

    /// Seconds since the Unix epoch.
    pub fn timestamp(&self) -> (r: i64)
        ensures
            r == self@,
            utc_instant_exists(r as int),
    {
        proof { use_type_invariant(self); }
        self.secs
    }

    /// The instant as text, as in `2023-02-13 10:28:12 UTC`.
    pub fn to_string(&self) -> (r: String)
        ensures
            r@ == utc_text(self@ as int),
    {
        proof { use_type_invariant(self); }
        instant_text(self.secs)
    }

    /// Decodes a date object: its `uts` member holds the seconds since the
    /// Unix epoch as text.
    pub fn from_json(v: &Json) -> (r: Result<LfmDate, DecodeError>)
        ensures
            match r {
                Ok(d) => date_of(*v) == Ok::<i64, DecodeError>(d@),
                Err(e) => date_of(*v) == Err::<i64, DecodeError>(e),
            },
    {
        let text = match v.get_str("uts") {
            Some(t) => t,
            None => return Err(DecodeError::MissingField(Field::Uts)),
        };
        match parse_i64(text.as_str()) {
            Some(secs) => match LfmDate::from_timestamp(secs) {
                Some(d) => Ok(d),
                None => Err(DecodeError::InvalidTimestamp),
            },
            None => Err(DecodeError::InvalidTimestamp),
        }
    }

    /// The date object that decodes to this instant.
    pub fn to_json(&self) -> (r: Json)
        ensures
            r is Object,
            date_of(r) == Ok::<i64, DecodeError>(self@),
    {
        let secs = self.timestamp();
        let text = i64_text(secs);
        let r = Json::Object(vec![("uts".to_owned(), Json::Str(text))]);
        proof {
            crate::text::lemma_decimal_round_trip(secs);
            crate::json::lemma_lookup_at(r->Object_0@, "uts"@, 0);
        }
        r
    }
}

} // verus!
