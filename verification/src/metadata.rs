//! Metadata records as the aggregator produces them.

use vstd::prelude::*;

verus! {

/// A merged metadata record, complete enough to hand to the embedding
/// collaborator.
#[derive(Debug, Clone)]
pub struct MetadataInfo {
    pub title: String,
    pub artist: String,
    pub album: Option<String>,
    pub year: Option<u32>,
    pub genre: Option<String>,
    pub track_number: Option<u32>,
    pub disc_number: Option<u32>,
    pub album_artist: Option<String>,
    pub composer: Option<String>,
    pub isrc: Option<String>,
    pub cover_art_url: Option<String>,
    pub lyrics: Option<String>,
}

/// A cover-art reference, optionally with the fetched image bytes.
#[derive(Debug, Clone)]
pub struct CoverArtInfo {
    pub url: String,
    pub data: Option<Vec<u8>>,
    pub mime_type: Option<String>,
}

/// Fetched cover-art bytes with their media type.
#[derive(Debug, Clone)]
pub struct CoverArtData {
    pub data: Vec<u8>,
    pub mime_type: String,
}

} // verus!
