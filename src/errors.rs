//! What can go wrong: decoding a payload, and fetching a page.
use vstd::prelude::*;
use crate::error_response::{error_response_message, ErrorResponse};

verus! {

/// A member of the remote API's payloads that the decoders read.
#[derive(Debug, Clone, Copy, PartialEq, Eq, Structural)]
pub enum Field {
    Artist,
    Name,
    Url,
    Image,
    Size,
    Text,
    Album,
    Date,
    Uts,
    RecentTracks,
    Attr,
    Total,
    Track,
}

/// The key under which a field stands in the payload.
pub open spec fn key_of(f: Field) -> Seq<char> {
    match f {
        Field::Artist => "artist"@,
        Field::Name => "name"@,
        Field::Url => "url"@,
        Field::Image => "image"@,
        Field::Size => "size"@,
        Field::Text => "#text"@,
        Field::Album => "album"@,
        Field::Date => "date"@,
        Field::Uts => "uts"@,
        Field::RecentTracks => "recenttracks"@,
        Field::Attr => "@attr"@,
        Field::Total => "total"@,
        Field::Track => "track"@,
    }
}

impl Field {
    /// The key under which this field stands in the payload.
    pub fn key(&self) -> (r: &'static str)
        ensures
            r@ == key_of(*self),
    {
        match self {
            Field::Artist => "artist",
            Field::Name => "name",
            Field::Url => "url",
            Field::Image => "image",
            Field::Size => "size",
            Field::Text => "#text",
            Field::Album => "album",
            Field::Date => "date",
            Field::Uts => "uts",
            Field::RecentTracks => "recenttracks",
            Field::Attr => "@attr",
            Field::Total => "total",
            Field::Track => "track",
        }
    }
}

/// Why a payload could not be decoded.
#[derive(Debug, Clone, Copy, PartialEq, Eq, Structural)]
pub enum DecodeError {
    /// A required member is absent, or is not of the shape it must have.
    MissingField(Field),
    /// A play time that is not an integer, or names no instant.
    InvalidTimestamp,
    /// A total count that is not an unsigned integer.
    InvalidTotal,
}

/// The message that describes a decoding error.
pub open spec fn decode_message(e: DecodeError) -> Seq<char> {
    match e {
        DecodeError::MissingField(f) => "missing field `"@ + key_of(f) + "`"@,
        DecodeError::InvalidTimestamp => "Failed to parse uts as i64"@,
        DecodeError::InvalidTotal => "Failed to parse total"@,
    }
}

impl DecodeError {
    /// The message that describes this error.
    pub fn to_string(&self) -> (r: String)
        ensures
            r@ == decode_message(*self),
    {
        match self {
            DecodeError::MissingField(f) => {
                let mut s = "missing field `".to_owned();
                s.append(f.key());
                s.append("`");
                s
            },
            DecodeError::InvalidTimestamp => "Failed to parse uts as i64".to_owned(),
            DecodeError::InvalidTotal => "Failed to parse total".to_owned(),
        }
    }
}

/// Why a page could not be fetched.
#[derive(Debug)]
pub enum Error {
    /// The transport failed; it holds the transport's message.
    Http(String),
    /// The response body is not a page nor an error envelope.
    Deserialization(DecodeError),
    /// The service reported an error that a retry cannot mend.
    UnretriableLastFm(ErrorResponse),
    /// The retry strategy stopped; it holds every transport error seen.
    TooManyRetry(Vec<Error>),
}

} // verus!

verus! {

/// The message that describes a fetch error.
pub open spec fn error_message(e: Error) -> Seq<char> {
    match e {
        Error::Http(m) => "HTTP error: "@ + m@,
        Error::Deserialization(d) => "JSON deserialization error: "@ + decode_message(d),
        Error::UnretriableLastFm(r) => "Unretryable error from LastFM: "@ + error_response_message(r@),
        Error::TooManyRetry(_) => "Too many retries"@,
    }
}

impl Error {
    /// The message that describes this error.
    pub fn to_string(&self) -> (r: String)
        ensures
            r@ == error_message(*self),
    {
        match self {
            Error::Http(m) => {
                let mut s = "HTTP error: ".to_owned();
                s.append(m.as_str());
                s
            },
            Error::Deserialization(d) => {
                let mut s = "JSON deserialization error: ".to_owned();
                s.append(d.to_string().as_str());
                s
            },
            Error::UnretriableLastFm(r) => {
                let mut s = "Unretryable error from LastFM: ".to_owned();
                s.append(r.to_string().as_str());
                s
            },
            Error::TooManyRetry(_) => "Too many retries".to_owned(),
        }
    }
}

} // verus!
