//! The fetch-and-embed pipeline's decisions: reading the external
//! collaborators' structured answers, the basic-metadata fallback, and
//! destination filenames.

use vstd::prelude::*;
use vstd::string::StringExecFns;
use crate::api::TrackInfo;
use crate::errors::AppError;
use crate::metadata::MetadataInfo;
use crate::task::{clone_opt_string, clone_opt_u32};
use crate::text::{sanitize_filename, spec_sanitize_char};

verus! {

/// Reads the fetch collaborator's structured answer: an explicit
/// success, an explicit failure with its diagnostic text, or a
/// malformed answer without the success indicator.
pub fn interpret_processor_response(success: Option<bool>, error: Option<String>) -> (r: Result<
    (),
    AppError,
>)
    ensures
        r is Ok <==> success == Some(true),
        success == Some(false) && error is Some ==> (r matches Err(e) && e.spec_message()
            == error->Some_0@),
{
    match success {
        Some(true) => Ok(()),
        Some(false) => {
            let msg = match error {
                Some(e) => e,
                None => String::from_str("unknown download error"),
            };
            Err(AppError::Download(msg))
        },
        None => Err(AppError::Download(String::from_str("invalid response from download script"))),
    }
}

/// Reads an embedding answer. Embedding never fails an already
/// successful download: the caller only logs a failure.
pub fn embed_succeeded(success: Option<bool>) -> (r: bool)
    ensures
        r == (success == Some(true)),
{
    matches!(success, Some(true))
}

/// The informational issues a post-embedding read-back can raise:
/// missing or placeholder title or artist, or a missing track number.
#[derive(Debug, Clone, Copy, PartialEq, Eq, Structural)]
pub struct EmbedIssues {
    pub bad_title: bool,
    pub bad_artist: bool,
    pub missing_track_number: bool,
}

impl EmbedIssues {
    /// Whether any issue was found at all.
    pub fn any(self) -> (r: bool)
        ensures
            r == (self.bad_title || self.bad_artist || self.missing_track_number),
    {
        self.bad_title || self.bad_artist || self.missing_track_number
    }
}

/// Checks the metadata read back from the finished file. These checks
/// are informational: they trigger a re-embedding attempt, never a task
/// failure.
pub fn check_embedded_metadata(
    title: &str,
    artist: &str,
    track_number: Option<u32>,
) -> (r: EmbedIssues)
    ensures
        r.bad_title == (title@.len() == 0 || title@ =~= "Unknown Title"@),
        r.bad_artist == (artist@.len() == 0 || artist@ =~= "Unknown Artist"@),
        r.missing_track_number == (track_number is None),
{
    EmbedIssues {
        bad_title: title.is_empty() || crate::text::str_eq(title, "Unknown Title"),
        bad_artist: artist.is_empty() || crate::text::str_eq(artist, "Unknown Artist"),
        missing_track_number: matches!(track_number, None),
    }
}

/// The basic-metadata fallback: when no provider returned a usable
/// record, the record to embed is built from what the finished file
/// already carries, each gap filled from the task's own track
/// reference; the track number is always the queue position and the
/// cover reference is the track's own thumbnail.
pub fn basic_metadata_fallback(read: &Option<MetadataInfo>, track: &TrackInfo, order: u32) -> (r:
    MetadataInfo)
    ensures
        r.title@ == (match read {
            Some(m) => if m.title@.len() > 0 {
                m.title@
            } else {
                track.title@
            },
            None => track.title@,
        }),
        r.artist@ == (match read {
            Some(m) => if m.artist@.len() > 0 {
                m.artist@
            } else {
                track.artist@
            },
            None => track.artist@,
        }),
        r.album == (match read {
            Some(m) => if m.album is Some {
                m.album
            } else {
                track.album
            },
            None => track.album,
        }),
        r.year == (match read {
            Some(m) => if m.year is Some {
                m.year
            } else {
                track.year
            },
            None => track.year,
        }),
        r.genre == (match read {
            Some(m) => if m.genre is Some {
                m.genre
            } else {
                track.genre
            },
            None => track.genre,
        }),
        r.track_number == Some(order),
        r.disc_number == (match read {
            Some(m) => if m.disc_number is Some {
                m.disc_number
            } else {
                track.disc_number
            },
            None => track.disc_number,
        }),
        r.album_artist == (match read {
            Some(m) => if m.album_artist is Some {
                m.album_artist
            } else {
                track.album_artist
            },
            None => track.album_artist,
        }),
        r.composer == (match read {
            Some(m) => if m.composer is Some {
                m.composer
            } else {
                track.composer
            },
            None => track.composer,
        }),
        r.isrc == (match read {
            Some(m) => if m.isrc is Some {
                m.isrc
            } else {
                track.isrc
            },
            None => track.isrc,
        }),
        r.cover_art_url == track.thumbnail_url,
        r.lyrics is None,
{
    match read {
        Some(m) => {
            let title = if m.title.as_str().is_empty() {
                track.title.clone()
            } else {
                m.title.clone()
            };
            let artist = if m.artist.as_str().is_empty() {
                track.artist.clone()
            } else {
                m.artist.clone()
            };
            MetadataInfo {
                title,
                artist,
                album: match &m.album {
                    Some(a) => Some(a.clone()),
                    None => clone_opt_string(&track.album),
                },
                year: match m.year {
                    Some(y) => Some(y),
                    None => clone_opt_u32(&track.year),
                },
                genre: match &m.genre {
                    Some(g) => Some(g.clone()),
                    None => clone_opt_string(&track.genre),
                },
                track_number: Some(order),
                disc_number: match m.disc_number {
                    Some(d) => Some(d),
                    None => clone_opt_u32(&track.disc_number),
                },
                album_artist: match &m.album_artist {
                    Some(a) => Some(a.clone()),
                    None => clone_opt_string(&track.album_artist),
                },
                composer: match &m.composer {
                    Some(c) => Some(c.clone()),
                    None => clone_opt_string(&track.composer),
                },
                isrc: match &m.isrc {
                    Some(i) => Some(i.clone()),
                    None => clone_opt_string(&track.isrc),
                },
                cover_art_url: clone_opt_string(&track.thumbnail_url),
                lyrics: None,
            }
        },
        None => MetadataInfo {
            title: track.title.clone(),
            artist: track.artist.clone(),
            album: clone_opt_string(&track.album),
            year: clone_opt_u32(&track.year),
            genre: clone_opt_string(&track.genre),
            track_number: Some(order),
            disc_number: clone_opt_u32(&track.disc_number),
            album_artist: clone_opt_string(&track.album_artist),
            composer: clone_opt_string(&track.composer),
            isrc: clone_opt_string(&track.isrc),
            cover_art_url: clone_opt_string(&track.thumbnail_url),
            lyrics: None,
        },
    }
}

/// Replaces a merged record's cover reference with the one the
/// dedicated cover-art search found, when it found one.
pub fn apply_cover_art(m: MetadataInfo, cover_url: Option<String>) -> (r: MetadataInfo)
    ensures
        r.cover_art_url == (match cover_url {
            Some(u) => Some(u),
            None => m.cover_art_url,
        }),
        r.title == m.title && r.artist == m.artist && r.album == m.album && r.year == m.year
            && r.genre == m.genre && r.track_number == m.track_number && r.disc_number
            == m.disc_number && r.album_artist == m.album_artist && r.composer == m.composer
            && r.isrc == m.isrc && r.lyrics == m.lyrics,
{
    match cover_url {
        Some(u) => MetadataInfo { cover_art_url: Some(u), ..m },
        None => m,
    }
}

/// The destination filename: the sanitised artist, title and (when
/// known) album joined with dashes, under the configured extension.
pub fn build_output_filename(artist: &str, title: &str, album: Option<&str>, ext: &str) -> (r:
    String)
    ensures
        match album {
            Some(a) => r@ == artist@.map_values(|c: char| spec_sanitize_char(c)) + " - "@
                + title@.map_values(|c: char| spec_sanitize_char(c)) + " - "@ + a@.map_values(
                |c: char| spec_sanitize_char(c),
            ) + "."@ + ext@,
            None => r@ == artist@.map_values(|c: char| spec_sanitize_char(c)) + " - "@
                + title@.map_values(|c: char| spec_sanitize_char(c)) + "."@ + ext@,
        },
{
    let mut out = sanitize_filename(artist);
    out.append(" - ");
    let t = sanitize_filename(title);
    out.append(t.as_str());
    match album {
        Some(a) => {
            out.append(" - ");
            let al = sanitize_filename(a);
            out.append(al.as_str());
        },
        None => {},
    }
    out.append(".");
    out.append(ext);
    out
}

} // verus!
