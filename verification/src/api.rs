//! Track references and search results as the surrounding application
//! hands them to the engine: plain values only.

use vstd::prelude::*;

verus! {

/// One track reference: what the caller knows about the track it wants.
/// An empty `url` means "no explicit source; resolve by search".
#[derive(Debug, Clone)]
pub struct TrackInfo {
    pub id: String,
    pub title: String,
    pub artist: String,
    pub album: Option<String>,
    pub duration: Option<u64>,
    pub year: Option<u32>,
    pub genre: Option<String>,
    pub thumbnail_url: Option<String>,
    pub source: String,
    pub url: String,
    pub isrc: Option<String>,
    pub album_artist: Option<String>,
    pub track_number: Option<u32>,
    pub disc_number: Option<u32>,
    pub composer: Option<String>,
    pub quality: Option<String>,
    pub format: Option<String>,
}

/// A batch of tracks returned by one search backend.
#[derive(Debug, Clone)]
pub struct SearchResult {
    pub tracks: Vec<TrackInfo>,
    pub total: usize,
    pub source: String,
}

/// A raw metadata record as one provider returned it.
#[derive(Debug, Clone)]
pub struct MetadataInfo {
    pub title: String,
    pub artist: String,
    pub album: Option<String>,
    pub year: Option<u32>,
    pub genre: Option<String>,
    pub track_number: Option<u32>,
    pub disc_number: Option<u32>,
    pub album_artist: Option<String>,
    pub composer: Option<String>,
    pub isrc: Option<String>,
    pub cover_art_url: Option<String>,
    pub thumbnail_url: Option<String>,
    pub duration: Option<u64>,
    pub lyrics: Option<String>,
}

/// A search request as the surrounding application hands it in.
#[derive(Debug, Clone)]
pub struct SearchRequest {
    pub query: String,
    pub limit: Option<usize>,
    pub sources: Option<Vec<String>>,
}

/// A download request as the surrounding application hands it in.
#[derive(Debug, Clone)]
pub struct DownloadRequest {
    pub track_id: String,
    pub title: String,
    pub artist: String,
    pub album: Option<String>,
    pub url: String,
    pub source: String,
}

} // verus!
