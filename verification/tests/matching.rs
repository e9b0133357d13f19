//! The match scorer, the merge precedence, and the aggregator's
//! selection rules.

use trackdown::aggregate::{
    accept_lyrics, build_cover_queries, build_search_url, build_track_query, first_lyrics,
    pick_candidate, pick_largest_image, LyricsProvider, LyricsSource, MetadataProvider,
    TrackCandidate,
};
use trackdown::merge::{merge_records, ProviderRecord};
use trackdown::scorer::is_good_match;

fn empty_record() -> ProviderRecord {
    ProviderRecord {
        title: None,
        artist: None,
        album: None,
        year: None,
        genre: None,
        track_number: None,
        disc_number: None,
        album_artist: None,
        composer: None,
        isrc: None,
        cover_art_url: None,
    }
}

#[test]
fn scorer_accepts_the_radio_edit() {
    let artists = vec![String::from("Daft Punk")];
    assert!(is_good_match(
        "Daft Punk",
        "One More Time",
        &artists,
        "One More Time (Radio Edit)"
    ));
}

#[test]
fn scorer_rejects_a_different_track() {
    let artists = vec![String::from("Stardust")];
    assert!(!is_good_match(
        "Daft Punk",
        "One More Time",
        &artists,
        "Music Sounds Better With You"
    ));
}

#[test]
fn scorer_is_case_insensitive() {
    let artists = vec![String::from("daft punk")];
    assert!(is_good_match("DAFT PUNK", "ONE MORE TIME", &artists, "one more time"));
}

#[test]
fn scorer_requires_an_artist_to_clear_half() {
    // The title matches exactly but no artist overlaps.
    let artists = vec![String::from("Somebody Else"), String::from("Another Act")];
    assert!(!is_good_match("Daft Punk", "One More Time", &artists, "One More Time"));
    // The best of several artists is taken.
    let artists2 = vec![String::from("Somebody Else"), String::from("Daft Punk")];
    assert!(is_good_match("Daft Punk", "One More Time", &artists2, "One More Time"));
}

#[test]
fn merge_detail_fills_a_missing_album() {
    let mut primary = empty_record();
    primary.title = Some(String::from("One More Time"));
    primary.artist = Some(String::from("Daft Punk"));
    primary.album = None;
    let mut detail = empty_record();
    detail.album = Some(String::from("Discovery"));
    let merged = merge_records(&primary, &detail, &empty_record()).unwrap();
    assert_eq!(merged.album.as_deref(), Some("Discovery"));
    assert_eq!(merged.title, "One More Time");
}

#[test]
fn merge_primary_title_wins_over_storefront() {
    let mut primary = empty_record();
    primary.title = Some(String::from("Primary Title"));
    primary.artist = Some(String::from("Primary Artist"));
    let mut storefront = empty_record();
    storefront.title = Some(String::from("Storefront Title"));
    storefront.genre = Some(String::from("House"));
    let merged = merge_records(&primary, &empty_record(), &storefront).unwrap();
    assert_eq!(merged.title, "Primary Title");
    assert_eq!(merged.genre.as_deref(), Some("House"));
}

#[test]
fn merge_yields_nothing_without_title_or_artist() {
    let mut detail = empty_record();
    detail.album = Some(String::from("Discovery"));
    detail.year = Some(2001);
    assert!(merge_records(&empty_record(), &detail, &empty_record()).is_none());
}

#[test]
fn merge_storefront_is_last_resort_for_basics() {
    let mut storefront = empty_record();
    storefront.title = Some(String::from("Found It"));
    storefront.artist = Some(String::from("Somebody"));
    let merged = merge_records(&empty_record(), &empty_record(), &storefront).unwrap();
    assert_eq!(merged.title, "Found It");
    assert_eq!(merged.artist, "Somebody");
}

#[test]
fn candidate_selection_takes_the_first_match() {
    let candidates = vec![
        TrackCandidate {
            title: String::from("Something Unrelated"),
            artists: vec![String::from("Who")],
        },
        TrackCandidate {
            title: String::from("One More Time"),
            artists: vec![String::from("Daft Punk")],
        },
        TrackCandidate {
            title: String::from("One More Time (Live)"),
            artists: vec![String::from("Daft Punk")],
        },
    ];
    assert_eq!(pick_candidate("Daft Punk", "One More Time", &candidates), Some(1));
    assert_eq!(pick_candidate("Daft Punk", "Harder Better", &candidates), None);
}

#[test]
fn lyrics_take_the_first_provider_that_answered() {
    let results = vec![
        None,
        Some(String::from("second provider's words")),
        Some(String::from("third provider's words")),
    ];
    assert_eq!(
        first_lyrics(results).as_deref(),
        Some("second provider's words")
    );
    assert_eq!(first_lyrics(vec![None, None]), None);
}

#[test]
fn lyrics_acceptance_knows_provider_placeholders() {
    assert!(!accept_lyrics(LyricsSource::LrcLib, ""));
    assert!(accept_lyrics(LyricsSource::LrcLib, "la la la"));
    assert!(!accept_lyrics(
        LyricsSource::LyricsOvh,
        "Sorry, we don't have lyrics for this song yet."
    ));
    assert!(accept_lyrics(LyricsSource::LyricsOvh, "la la la"));
    assert!(!accept_lyrics(
        LyricsSource::Musixmatch,
        "words\n******* This Lyrics is NOT for Commercial use *******"
    ));
}

#[test]
fn largest_image_wins_and_ties_go_to_the_last() {
    let widths = vec![Some(100), Some(600), None, Some(600)];
    assert_eq!(pick_largest_image(&widths), Some(3));
    assert_eq!(pick_largest_image(&Vec::new()), None);
}

#[test]
fn track_query_phrasing() {
    assert_eq!(
        build_track_query("Daft Punk", "One More Time", Some("Discovery")),
        "artist:\"Daft Punk\" track:\"One More Time\" album:\"Discovery\""
    );
    assert_eq!(
        build_track_query("Daft Punk", "One More Time", None),
        "artist:\"Daft Punk\" track:\"One More Time\""
    );
}

#[test]
fn cover_queries_run_from_specific_to_loose() {
    let qs = build_cover_queries("Daft Punk", "One More Time", None);
    assert_eq!(qs.len(), 4);
    assert_eq!(qs[0], "artist:\"Daft Punk\" track:\"One More Time\"");
    assert_eq!(qs[1], "\"Daft Punk\" \"One More Time\"");
    assert_eq!(qs[2], "artist:\"Daft Punk\" One More Time");
    assert_eq!(qs[3], "Daft Punk One More Time");
}

#[test]
fn search_urls_percent_encode_the_query() {
    let u = build_search_url("https://example.invalid/search?q=", "a b&c", "&limit=5");
    assert_eq!(u, "https://example.invalid/search?q=a%20b%26c&limit=5");
}

#[test]
fn provider_fronts_hold_their_credentials() {
    let mut p = MetadataProvider::new_with_proxy(Some(String::from("http://127.0.0.1:1080")));
    assert_eq!(p.api_keys.get_api_key("spotify"), None);
    p.set_api_key(String::from("spotify"), String::from("SECRET-REDACTED"));
    p.set_api_key(String::from("spotify"), String::from("SECRET-REDACTED"));
    assert!(p.api_keys.get_api_key("spotify").is_some());
    assert_eq!(p.api_keys.entries.len(), 1);
    let mut l = LyricsProvider::new();
    l.set_api_key(String::from("genius"), String::from("SECRET-REDACTED"));
    assert!(l.api_keys.get_api_key("genius").is_some());
    assert_eq!(l.proxy, None);
}
