//! Merge precedence across metadata providers.
//!
//! The primary catalog provider supplies title, artist, album and cover
//! art when present. The community-database provider supplies detail
//! fields — year, genre, track and disc number, album artist, composer,
//! ISRC — and may fill an album the primary lacked, but never overwrites
//! the primary's title, artist or album. The storefront provider is
//! last-resort and only fills what is still missing, including title and
//! artist when the primary found nothing. The result is absent exactly
//! when no provider contributed a usable title or artist.

use vstd::prelude::*;
use crate::metadata::MetadataInfo;
use crate::task::{clone_opt_string, clone_opt_u32};

verus! {

/// One provider's raw answer, before the merge.
#[derive(Debug, Clone)]
pub struct ProviderRecord {
    pub title: Option<String>,
    pub artist: Option<String>,
    pub album: Option<String>,
    pub year: Option<u32>,
    pub genre: Option<String>,
    pub track_number: Option<u32>,
    pub disc_number: Option<u32>,
    pub album_artist: Option<String>,
    pub composer: Option<String>,
    pub isrc: Option<String>,
    pub cover_art_url: Option<String>,
}

/// The first present value wins.
pub open spec fn spec_pick<T>(a: Option<T>, b: Option<T>) -> Option<T> {
    if a is Some {
        a
    } else {
        b
    }
}

/// The first present value of three wins.
pub open spec fn spec_pick3<T>(a: Option<T>, b: Option<T>, c: Option<T>) -> Option<T> {
    spec_pick(a, spec_pick(b, c))
}

/// The merged title: the primary's, else the storefront's. The detail
/// provider never supplies it.
pub open spec fn spec_merged_title(p: ProviderRecord, sf: ProviderRecord) -> Option<Seq<char>> {
    match spec_pick(p.title, sf.title) {
        Some(t) => Some(t@),
        None => None,
    }
}

/// The merged artist: the primary's, else the storefront's.
pub open spec fn spec_merged_artist(p: ProviderRecord, sf: ProviderRecord) -> Option<Seq<char>> {
    match spec_pick(p.artist, sf.artist) {
        Some(a) => Some(a@),
        None => None,
    }
}

/// A merge yields a record at all exactly when some provider contributed
/// a usable title or artist.
pub open spec fn spec_merge_usable(p: ProviderRecord, sf: ProviderRecord) -> bool {
    spec_pick(p.title, sf.title) is Some || spec_pick(p.artist, sf.artist) is Some
}

fn pick_string(a: &Option<String>, b: &Option<String>) -> (r: Option<String>)
    ensures
        r == spec_pick(*a, *b),
{
    match a {
        Option::Some(x) => Option::Some(x.clone()),
        Option::None => clone_opt_string(b),
    }
}

fn pick_u32(a: &Option<u32>, b: &Option<u32>) -> (r: Option<u32>)
    ensures
        r == spec_pick(*a, *b),
{
    match a {
        Option::Some(x) => Option::Some(*x),
        Option::None => clone_opt_u32(b),
    }
}

fn pick3_string(a: &Option<String>, b: &Option<String>, c: &Option<String>) -> (r: Option<String>)
    ensures
        r == spec_pick3(*a, *b, *c),
{
    match a {
        Option::Some(x) => Option::Some(x.clone()),
        Option::None => pick_string(b, c),
    }
}

fn pick3_u32(a: &Option<u32>, b: &Option<u32>, c: &Option<u32>) -> (r: Option<u32>)
    ensures
        r == spec_pick3(*a, *b, *c),
{
    match a {
        Option::Some(x) => Option::Some(*x),
        Option::None => pick_u32(b, c),
    }
}

/// Merges the three providers' answers under the fixed precedence.
/// `primary` is the catalog provider, `detail` the community database,
/// `storefront` the commercial catalog.
pub fn merge_records(
    primary: &ProviderRecord,
    detail: &ProviderRecord,
    storefront: &ProviderRecord,
) -> (r: Option<MetadataInfo>)
    ensures
        r is Some <==> spec_merge_usable(*primary, *storefront),
        r matches Some(m) ==> {
            &&& spec_merged_title(*primary, *storefront) matches Some(t) ==> m.title@ == t
            &&& spec_merged_title(*primary, *storefront) is None ==> m.title@ == Seq::<
                char,
            >::empty()
            &&& spec_merged_artist(*primary, *storefront) matches Some(a) ==> m.artist@ == a
            &&& spec_merged_artist(*primary, *storefront) is None ==> m.artist@ == Seq::<
                char,
            >::empty()
            &&& m.album == spec_pick3(primary.album, detail.album, storefront.album)
            &&& m.year == spec_pick3(primary.year, detail.year, storefront.year)
            &&& m.genre == spec_pick3(primary.genre, detail.genre, storefront.genre)
            &&& m.track_number == spec_pick3(
                primary.track_number,
                detail.track_number,
                storefront.track_number,
            )
            &&& m.disc_number == spec_pick3(
                primary.disc_number,
                detail.disc_number,
                storefront.disc_number,
            )
            &&& m.album_artist == spec_pick3(
                primary.album_artist,
                detail.album_artist,
                storefront.album_artist,
            )
            &&& m.composer == spec_pick3(primary.composer, detail.composer, storefront.composer)
            &&& m.isrc == spec_pick3(primary.isrc, detail.isrc, storefront.isrc)
            &&& m.cover_art_url == spec_pick3(
                primary.cover_art_url,
                detail.cover_art_url,
                storefront.cover_art_url,
            )
            &&& m.lyrics is None
        },
{
    let title = pick_string(&primary.title, &storefront.title);
    let artist = pick_string(&primary.artist, &storefront.artist);
    if matches!(title, Option::None) && matches!(artist, Option::None) {
        return Option::None;
    }
    let title_str = match title {
        Option::Some(t) => t,
        Option::None => String::new(),
    };
    let artist_str = match artist {
        Option::Some(a) => a,
        Option::None => String::new(),
    };
    Option::Some(
        MetadataInfo {
            title: title_str,
            artist: artist_str,
            album: pick3_string(&primary.album, &detail.album, &storefront.album),
            year: pick3_u32(&primary.year, &detail.year, &storefront.year),
            genre: pick3_string(&primary.genre, &detail.genre, &storefront.genre),
            track_number: pick3_u32(
                &primary.track_number,
                &detail.track_number,
                &storefront.track_number,
            ),
            disc_number: pick3_u32(
                &primary.disc_number,
                &detail.disc_number,
                &storefront.disc_number,
            ),
            album_artist: pick3_string(
                &primary.album_artist,
                &detail.album_artist,
                &storefront.album_artist,
            ),
            composer: pick3_string(&primary.composer, &detail.composer, &storefront.composer),
            isrc: pick3_string(&primary.isrc, &detail.isrc, &storefront.isrc),
            cover_art_url: pick3_string(
                &primary.cover_art_url,
                &detail.cover_art_url,
                &storefront.cover_art_url,
            ),
            lyrics: Option::None,
        },
    )
}

/// The merge-precedence law: a detail-provider album fills a gap the
/// primary left, and the primary's title always wins when both the
/// primary and another provider supplied one.
pub proof fn lemma_merge_precedence(p: ProviderRecord, d: ProviderRecord, sf: ProviderRecord)
    ensures
        p.album is None && d.album is Some ==> spec_pick3(p.album, d.album, sf.album) == d.album,
        p.title is Some ==> spec_merged_title(p, sf) == Some(p.title->Some_0@),
        p.album is Some ==> spec_pick3(p.album, d.album, sf.album) == p.album,
        p.artist is Some ==> spec_merged_artist(p, sf) == Some(p.artist->Some_0@),
{
}

} // verus!
