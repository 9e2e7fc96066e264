//! Play-event tracking for a periodically polled "now playing" feed.
//!
//! The heart of the crate is [`detector::CachedData`], a pure state machine
//! that watches a stream of playback snapshots and decides exactly once per
//! contiguous listen when a track has been played long enough to count as a
//! genuine play. [`record::plan_cycle`] turns one poll cycle's snapshot into
//! an optional persistence request, and [`laws`] proves the debouncing
//! properties the detector is designed around.
//!
//! Fetching snapshots and storing play records are I/O and live outside this
//! crate; they hand plain values in and take plain values back.

use vstd::prelude::*;
use vstd::string::StringExecFns;

pub mod detector;
pub mod laws;
pub mod record;

verus! {

/// Process configuration for a polling worker: credentials for the playback
/// source and the location of the persistence store.
#[derive(Clone, Debug)]
pub struct WorkerConfig {
    pub client_id: String,
    pub client_secret: String,
    pub callback_url: String,
    pub db_url: String,
}

/// Failure of the playback-source client, as far as this crate cares: the
/// client could not be authenticated.
#[derive(Debug)]
pub enum SpotifyWrapperError {
    UnauthenticatedClient,
}

pub type SpotifyWrapperResult<T> = Result<T, SpotifyWrapperError>;

impl SpotifyWrapperError {
    /// A human-readable description of the failure.
    pub fn description(&self) -> (s: String)
        ensures
            s@ == "Unauthenticated client"@,
    {
        String::from_str("Unauthenticated client")
    }
}

} // verus!
