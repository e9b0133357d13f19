//! Playlist import: source-URL classification and CSV track records.

use vstd::prelude::*;
use vstd::string::StrSliceExecFns;
use vstd::string::StringExecFns;
use crate::errors::AppError;
use crate::text::{
    is_digit_char, lower_of, parse_u64, replaced_of, replace_all, spec_dec_value,
    spec_starts_with, str_starts_with, string_from_chars, to_lowercase,
};

verus! {

/// What a streaming-catalog URL points at.
#[derive(Debug, Clone, Copy, PartialEq, Eq, Structural)]
pub enum SpotifyUrlKind {
    Track,
    Album,
    Playlist,
}

/// An alphanumeric character, as catalog ids are made of.
pub open spec fn is_alnum_char(c: char) -> bool {
    ('a' <= c && c <= 'z') || ('A' <= c && c <= 'Z') || ('0' <= c && c <= '9')
}

/// The URL prefix that names each kind of catalog object.
pub open spec fn spec_catalog_prefix(kind: SpotifyUrlKind) -> Seq<char> {
    match kind {
        SpotifyUrlKind::Track => "https://open.spotify.com/track/"@,
        SpotifyUrlKind::Album => "https://open.spotify.com/album/"@,
        SpotifyUrlKind::Playlist => "https://open.spotify.com/playlist/"@,
    }
}

/// The length of the leading alphanumeric run.
pub open spec fn spec_alnum_prefix_len(s: Seq<char>) -> nat
    decreases s.len(),
{
    if s.len() == 0 || !is_alnum_char(s[0]) {
        0
    } else {
        1 + spec_alnum_prefix_len(s.drop_first())
    }
}

proof fn lemma_alnum_prefix(s: Seq<char>, k: int)
    requires
        0 <= k <= s.len(),
        forall|j: int| 0 <= j < k ==> is_alnum_char(#[trigger] s[j]),
        k == s.len() || !is_alnum_char(s[k]),
    ensures
        spec_alnum_prefix_len(s) == k,
    decreases k,
{
    if k > 0 {
        lemma_alnum_prefix(s.drop_first(), k - 1);
    }
}

/// Parses a catalog URL of the form
/// `https://open.spotify.com/<kind>/<id>`: the kind is `track`, `album`
/// or `playlist`, and the id is the leading alphanumeric run after the
/// last slash, which must be non-empty.
pub fn parse_spotify_url(candidate: &str) -> (r: Result<(SpotifyUrlKind, String), AppError>)
    ensures
        match r {
            Ok((kind, id)) => {
                &&& spec_starts_with(candidate@, spec_catalog_prefix(kind))
                &&& id@ =~= candidate@.skip(spec_catalog_prefix(kind).len() as int).take(
                    spec_alnum_prefix_len(
                        candidate@.skip(spec_catalog_prefix(kind).len() as int),
                    ) as int,
                )
                &&& id@.len() > 0
            },
            Err(_) => (!spec_starts_with(candidate@, "https://open.spotify.com/track/"@)
                && !spec_starts_with(candidate@, "https://open.spotify.com/album/"@)
                && !spec_starts_with(candidate@, "https://open.spotify.com/playlist/"@)) || (
            exists|k: SpotifyUrlKind|
                spec_starts_with(candidate@, #[trigger] spec_catalog_prefix(k))
                    && spec_alnum_prefix_len(
                    candidate@.skip(spec_catalog_prefix(k).len() as int),
                ) == 0),
        },
{
    broadcast use vstd::seq::group_seq_axioms;
    broadcast use vstd::string::group_string_axioms;

    let pair: (SpotifyUrlKind, usize) = if str_starts_with(
        candidate,
        "https://open.spotify.com/track/",
    ) {
        proof {
            reveal_strlit("https://open.spotify.com/track/");
            assert(spec_catalog_prefix(SpotifyUrlKind::Track).len() == 31);
        }
        (SpotifyUrlKind::Track, 31)
    } else if str_starts_with(candidate, "https://open.spotify.com/album/") {
        proof {
            reveal_strlit("https://open.spotify.com/album/");
            assert(spec_catalog_prefix(SpotifyUrlKind::Album).len() == 31);
        }
        (SpotifyUrlKind::Album, 31)
    } else if str_starts_with(candidate, "https://open.spotify.com/playlist/") {
        proof {
            reveal_strlit("https://open.spotify.com/playlist/");
            assert(spec_catalog_prefix(SpotifyUrlKind::Playlist).len() == 34);
        }
        (SpotifyUrlKind::Playlist, 34)
    } else {
        return Err(AppError::Parse(String::from_str("not a recognised catalog URL")));
    };
    let kind = pair.0;
    let plen = pair.1;
    proof {
        assert(spec_starts_with(candidate@, spec_catalog_prefix(kind)));
        assert(spec_catalog_prefix(kind).len() == plen);
        assert(plen <= candidate@.len());
    }
    let ghost rest = candidate@.skip(plen as int);
    let n = candidate.unicode_len();
    let mut k: usize = plen;
    loop
        invariant_except_break
            n == candidate@.len(),
            plen <= k <= n,
            rest == candidate@.skip(plen as int),
            forall|j: int| 0 <= j < k - plen ==> is_alnum_char(#[trigger] rest[j]),
        ensures
            plen <= k <= n,
            rest == candidate@.skip(plen as int),
            forall|j: int| 0 <= j < k - plen ==> is_alnum_char(#[trigger] rest[j]),
            k == n || !is_alnum_char(rest[k - plen]),
        decreases n - k,
    {
        if k >= n {
            break;
        }
        let c = candidate.get_char(k);
        proof {
            assert(0 <= plen as int <= candidate@.len());
            assert(candidate@.subrange(plen as int, candidate@.len() as int).len()
                == candidate@.len() - plen);
            assert(candidate@.subrange(plen as int, candidate@.len() as int)[k - plen]
                == candidate@[k as int]);
        }
        if !((c >= 'a' && c <= 'z') || (c >= 'A' && c <= 'Z') || (c >= '0' && c <= '9')) {
            break;
        }
        k = k + 1;
    }
    proof {
        lemma_alnum_prefix(rest, k - plen);
    }
    if k == plen {
        proof {
            assert(spec_alnum_prefix_len(candidate@.skip(spec_catalog_prefix(kind).len() as int))
                == 0);
            assert(exists|kk: SpotifyUrlKind|
                spec_starts_with(candidate@, #[trigger] spec_catalog_prefix(kk))
                    && spec_alnum_prefix_len(
                    candidate@.skip(spec_catalog_prefix(kk).len() as int),
                ) == 0);
        }
        return Err(AppError::Parse(String::from_str("catalog URL carries no id")));
    }
    let mut idchars: Vec<char> = Vec::new();
    let mut i: usize = plen;
    while i < k
        invariant
            n == candidate@.len(),
            plen <= i <= k <= n,
            rest == candidate@.skip(plen as int),
            idchars@ =~= rest.take(i - plen),
        decreases k - i,
    {
        proof {
            assert(candidate@.skip(plen as int).len() == n - plen);
            assert(candidate@.skip(plen as int)[i - plen] == candidate@[i as int]);
            assert(rest.take(i - plen + 1) =~= rest.take(i - plen).push(rest[i - plen]));
        }
        let c = candidate.get_char(i);
        idchars.push(c);
        i = i + 1;
    }
    let id = string_from_chars(&idchars);
    Ok((kind, id))
}

/// The year given by a release date's first four characters, when they
/// are digits (dates come as `YYYY-MM-DD` or a bare year).
pub fn extract_year_from_date(date: &str) -> (r: Option<u32>)
    ensures
        match r {
            Some(y) => date@.len() >= 4 && (forall|i: int|
                0 <= i < 4 ==> is_digit_char(#[trigger] date@[i])) && y == spec_dec_value(
                date@.take(4),
            ),
            None => date@.len() < 4 || exists|i: int|
                0 <= i < 4 && !is_digit_char(#[trigger] date@[i]),
        },
{
    let n = date.unicode_len();
    if n < 4 {
        return None;
    }
    let mut value: u32 = 0;
    let mut i: usize = 0;
    while i < 4
        invariant
            n == date@.len(),
            n >= 4,
            i <= 4,
            forall|j: int| 0 <= j < i ==> is_digit_char(#[trigger] date@[j]),
            value == spec_dec_value(date@.take(i as int)),
            value < (if i == 0 {
                1int
            } else if i == 1 {
                10int
            } else if i == 2 {
                100int
            } else if i == 3 {
                1000int
            } else {
                10000int
            }),
        decreases 4 - i,
    {
        let c = date.get_char(i);
        if !(c >= '0' && c <= '9') {
            return None;
        }
        proof {
            assert(date@.take(i as int + 1).drop_last() =~= date@.take(i as int));
            assert(date@.take(i as int + 1).last() == date@[i as int]);
        }
        value = value * 10 + ((c as u32) - 48);
        i = i + 1;
    }
    Some(value)
}

/// One track row of an imported CSV playlist, normalised.
#[derive(Debug, Clone)]
pub struct CsvTrack {
    pub title: String,
    pub artist: String,
    pub album: String,
    pub year: Option<u32>,
    pub duration_secs: u64,
    pub popularity: u32,
    pub genres: String,
    pub track_number: u32,
}

/// The row field at an index, or the given default where the row is
/// short.
fn field_or(fields: &Vec<String>, i: usize, default: &str) -> (r: String)
    ensures
        r@ == if i < fields@.len() {
            fields@[i as int]@
        } else {
            default@
        },
{
    if i < fields.len() {
        fields[i].clone()
    } else {
        let mut s = String::new();
        s.append(default);
        s
    }
}

/// A header row: the first field reads `Position`.
pub fn is_csv_header(fields: &Vec<String>) -> (r: bool)
    ensures
        r == (fields@.len() > 0 && fields@[0]@ =~= "Position"@),
{
    if fields.len() == 0 {
        return false;
    }
    crate::text::str_eq(fields[0].as_str(), "Position")
}

/// Parses a number no larger than a popularity score; anything else
/// reads as zero.
fn parse_u32_or_zero(s: &str) -> (r: u32)
    ensures
        r == (if s@.len() > 0 && (forall|i: int|
            0 <= i < s@.len() ==> is_digit_char(#[trigger] s@[i])) && spec_dec_value(s@)
            <= u32::MAX {
            spec_dec_value(s@)
        } else {
            0
        }),
{
    match parse_u64(s) {
        Some(v) => {
            if v <= 0xFFFF_FFFF {
                v as u32
            } else {
                0
            }
        },
        None => 0,
    }
}

/// Normalises one CSV row into a track record: named columns picked by
/// position, multiple artists separated by semicolons rewritten with
/// commas, the year read off the release date, the duration converted
/// from milliseconds to seconds, and the row's 1-based position kept as
/// the track number.
pub fn parse_csv_track_record(fields: &Vec<String>, track_number: u32) -> (r: CsvTrack)
    ensures
        r.title@ == (if 1 < fields@.len() {
            fields@[1]@
        } else {
            "Unknown"@
        }),
        r.artist@ == replaced_of(
            (if 3 < fields@.len() {
                fields@[3]@
            } else {
                "Unknown"@
            }),
            ";"@,
            ", "@,
        ),
        r.album@ == (if 2 < fields@.len() {
            fields@[2]@
        } else {
            "Unknown"@
        }),
        r.track_number == track_number,
{
    let title = field_or(fields, 1, "Unknown");
    let album = field_or(fields, 2, "Unknown");
    let raw_artist = field_or(fields, 3, "Unknown");
    let artist = replace_all(raw_artist.as_str(), ";", ", ");
    let release_date = field_or(fields, 4, "");
    let duration_field = field_or(fields, 5, "0");
    let popularity_field = field_or(fields, 6, "0");
    let genres = field_or(fields, 10, "");
    let year = extract_year_from_date(release_date.as_str());
    let duration_ms = match parse_u64(duration_field.as_str()) {
        Some(v) => v,
        None => 0,
    };
    let popularity = parse_u32_or_zero(popularity_field.as_str());
    CsvTrack {
        title,
        artist,
        album,
        year,
        duration_secs: duration_ms / 1000,
        popularity,
        genres,
        track_number,
    }
}

/// The stable id given to a CSV-imported track: artist and title with
/// spaces underscored and lowercased, under a fixed prefix.
pub fn build_csv_track_id(artist: &str, title: &str) -> (r: String)
    ensures
        r@ == "csv_"@ + lower_of(replaced_of(artist@, " "@, "_"@)) + "_"@ + lower_of(
            replaced_of(title@, " "@, "_"@),
        ),
{
    let a = replace_all(artist, " ", "_");
    let la = to_lowercase(a.as_str());
    let t = replace_all(title, " ", "_");
    let lt = to_lowercase(t.as_str());
    let mut out = String::from_str("csv_");
    out.append(la.as_str());
    out.append("_");
    out.append(lt.as_str());
    out
}

} // verus!
