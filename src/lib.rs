//! A client library for a user's Last.fm listening history: the tolerant
//! decoding of the API's JSON payloads, the retry policy, the page fetch
//! decisions and the cursor-driven history stream.
pub mod json;
pub mod text;
pub mod errors;
pub mod error_response;
pub mod imageset;
pub mod artist;
pub mod lfm_date;
pub mod track;
pub mod recent_tracks_page;
pub mod retry_strategy;
pub mod retry_delay;
pub mod client;

pub use client::{
    mask_api_key, now_playing_of, FetchStep, PageFetch, PageRequest, RecentTracksFetcher, StreamStep,
};
pub use errors::{DecodeError, Error, Field};
pub use json::Json;
pub use retry_strategy::{Delay, JitteredBackoff, RetryStrategy};
