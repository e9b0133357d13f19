//! Caches, validation, configuration, retry policies, text utilities,
//! import parsing and the encryption round trip.

use trackdown::cache::{CacheEntry, CacheManager, FileCache, MetadataCache};
use trackdown::config::{
    detect_gpu_acceleration, parse_format, parse_quality, AppConfig, AudioFormat, AudioQuality,
    GpuAcceleration, SettingsUpdate,
};
use trackdown::crypto::{decrypt_data, encrypt_data, hex_decode, hex_encode};
use trackdown::importer::{
    build_csv_track_id, extract_year_from_date, is_csv_header, parse_csv_track_record,
    parse_spotify_url, SpotifyUrlKind,
};
use trackdown::pipeline::{
    basic_metadata_fallback, build_output_filename, check_embedded_metadata,
    interpret_processor_response,
};
use trackdown::pool::{fetch_style_for_attempt, should_retry_fetch, DownloadProgress, FetchStyle};
use trackdown::strategy::{
    build_fetch_tool_args, build_info_cache_key, build_postprocessor_args, build_search_cache_key,
    build_search_expression, choose_source,
    clean_track_name, find_downloaded_file, find_suitable_downloader, move_retry_delay_ms,
    parse_track_info, select_audio_format, should_retry_move, supports_format, vorbis_quality,
    FormatInfo, MoveErrorKind, PythonDownloader, StrategyKind,
};
use trackdown::config::AudioQuality as Tier;
use trackdown::text::{sanitize_filename, sanitize_track_filename};
use trackdown::processing::AudioQuality as ProcTier;
use trackdown::search::{SearchManager, SearchQuery};
use trackdown::validate::{
    duration_from_parts, validate_duration, validate_file_size, InputValidator,
    MAX_TRACK_FILE_BYTES,
};

#[test]
fn ttl_zero_expires_immediately_after_the_write() {
    let mut cache = MetadataCache::new(3600);
    cache.set_with_ttl(String::from("k"), String::from("v"), 0, 1000);
    // Expired already at the write instant, and ever after.
    assert_eq!(cache.get("k", 1000), None);
    assert_eq!(cache.get("k", 1001), None);
    // A generous TTL keeps the value until its expiry and no longer.
    cache.set_with_ttl(String::from("k2"), String::from("v2"), 500, 1000);
    assert_eq!(cache.get("k2", 1400).as_deref(), Some("v2"));
    assert_eq!(cache.get("k2", 1500).as_deref(), Some("v2"));
    assert_eq!(cache.get("k2", 1501), None);
}

#[test]
fn expired_entries_are_swept_not_returned() {
    let mut cache = MetadataCache::new(100);
    cache.set(String::from("a"), String::from("1"), 1000);
    cache.set(String::from("b"), String::from("2"), 2000);
    assert_eq!(cache.size(), 2);
    // "a" expired at 1100; "b" lives until 2100.
    assert_eq!(cache.get("a", 1500), None);
    assert_eq!(cache.get("b", 1500).as_deref(), Some("2"));
    cache.clear_expired(1500);
    assert_eq!(cache.size(), 1);
    cache.clear_all();
    assert_eq!(cache.size(), 0);
}

#[test]
fn overwriting_a_key_replaces_its_entry() {
    let mut cache = MetadataCache::new(100);
    cache.set_with_ttl(String::from("k"), String::from("old"), 1000, 0);
    cache.set_with_ttl(String::from("k"), String::from("new"), 1000, 10);
    assert_eq!(cache.size(), 1);
    assert_eq!(cache.get("k", 20).as_deref(), Some("new"));
    cache.remove("k");
    assert_eq!(cache.get("k", 20), None);
}

#[test]
fn file_cache_evicts_oldest_until_the_write_fits() {
    // One MiB budget.
    let mut fc = FileCache::new(1);
    fc.set(String::from("first"), 400_000, 10).unwrap();
    fc.set(String::from("second"), 400_000, 20).unwrap();
    assert_eq!(fc.get_size(), 800_000);
    // The third write does not fit: the oldest entry must go.
    fc.set(String::from("third"), 400_000, 30).unwrap();
    assert!(fc.get_size() <= fc.get_max_size());
    assert_eq!(fc.get("first"), None);
    assert_eq!(fc.get("second"), Some(400_000));
    assert_eq!(fc.get("third"), Some(400_000));
}

#[test]
fn file_cache_keeps_everything_when_the_write_fits() {
    let mut fc = FileCache::new(1);
    fc.set(String::from("a"), 100_000, 10).unwrap();
    fc.set(String::from("b"), 200_000, 20).unwrap();
    // This write fits as-is: nothing may be evicted for it.
    fc.set(String::from("c"), 300_000, 30).unwrap();
    assert_eq!(fc.get("a"), Some(100_000));
    assert_eq!(fc.get("b"), Some(200_000));
    assert_eq!(fc.get("c"), Some(300_000));
    assert_eq!(fc.get_size(), 600_000);
}

#[test]
fn file_cache_refuses_a_blob_over_the_whole_budget() {
    let mut fc = FileCache::new(1);
    assert!(fc.set(String::from("huge"), 2_000_000, 10).is_err());
    assert_eq!(fc.get_size(), 0);
    fc.set(String::from("ok"), 1_048_576, 10).unwrap();
    assert_eq!(fc.get_size(), 1_048_576);
    fc.clear().unwrap();
    assert_eq!(fc.get_size(), 0);
}

#[test]
fn cache_manager_reports_stats() {
    let mut cm = CacheManager::new(2, 60);
    cm.metadata.set(String::from("x"), String::from("y"), 100);
    cm.files.set(String::from("blob"), 1234, 100).unwrap();
    let stats = cm.get_cache_stats();
    assert_eq!(stats.metadata_entries, 1);
    assert_eq!(stats.file_cache_size_bytes, 1234);
    assert_eq!(stats.file_cache_max_bytes, 2 * 1024 * 1024);
    cm.cleanup_expired(100 + 61).unwrap();
    assert_eq!(cm.metadata.size(), 0);
}

#[test]
fn cache_entry_stamps_and_expiry() {
    let e = CacheEntry::new(String::from("payload"), 50, 1000);
    assert_eq!(e.created_at, 1000);
    assert_eq!(e.expires_at, 1050);
    assert!(!e.is_expired(1050));
    assert!(e.is_expired(1051));
    // A zero time to live back-dates the stamp: expired at the write.
    let z = CacheEntry::new(String::from("payload"), 0, 1000);
    assert_eq!(z.expires_at, 999);
    assert!(z.is_expired(1000));
}

#[test]
fn a_sixty_one_megabyte_file_is_rejected_as_an_album() {
    let sixty_one_mb: u64 = 61 * 1024 * 1024;
    assert!(validate_file_size(sixty_one_mb).is_err());
    assert!(validate_file_size(MAX_TRACK_FILE_BYTES).is_ok());
    // Rejected on size alone, however short the duration reads.
    assert!(validate_duration(duration_from_parts(0, 3, 20)).is_ok());
    assert!(validate_duration(duration_from_parts(0, 20, 1)).is_err());
}

#[test]
fn filename_sanitising_replaces_reserved_characters() {
    assert_eq!(sanitize_filename("AC/DC: T\"N\"T?"), "AC_DC_ T_N_T_");
    assert_eq!(sanitize_track_filename("AC/DC", "T.N.T"), "AC_DC - T.N.T");
    assert_eq!(
        build_output_filename("AC/DC", "T.N.T", Some("High Voltage"), "mp3"),
        "AC_DC - T.N.T - High Voltage.mp3"
    );
}

#[test]
fn validator_sanitising_trims_dots_and_spaces() {
    let v = InputValidator::new();
    assert_eq!(v.sanitize_filename(" ..my song.. ").unwrap(), "my song");
    assert!(v.sanitize_filename("...").is_err());
    assert!(v.sanitize_filename("").is_err());
    assert_eq!(v.sanitize_filename("a/b").unwrap(), "a_b");
}

#[test]
fn path_validation_catches_traversal_and_nul() {
    let v = InputValidator::new();
    assert!(v.validate_file_path("music/tracks/song.mp3").is_ok());
    assert!(v.validate_file_path("../etc/passwd").is_err());
    assert!(v.validate_file_path("a/../b").is_err());
    assert!(v.validate_file_path("a..b/ok").is_ok());
    assert!(v.validate_file_path("bad\u{0}path").is_err());
    assert!(v.validate_file_path("").is_err());
}

#[test]
fn query_validation_is_case_insensitive_about_danger() {
    let v = InputValidator::new();
    assert!(v.validate_search_query("daft punk one more time").is_ok());
    assert!(v.validate_search_query("").is_err());
    assert!(v.validate_search_query("<SCRIPT>alert(1)</SCRIPT>").is_err());
    assert!(v.validate_search_query("JavaScript:void(0)").is_err());
    let long = "x".repeat(501);
    assert!(v.validate_search_query(&long).is_err());
}

#[test]
fn api_key_validation_checks_service_and_shape() {
    let v = InputValidator::new();
    assert!(v.validate_api_key("spotify", "0123456789abcdef").is_ok());
    assert!(v.validate_api_key("Spotify", "0123456789abcdef").is_ok());
    assert!(v.validate_api_key("myspace", "0123456789abcdef").is_err());
    assert!(v.validate_api_key("spotify", "short").is_err());
    let long = "k".repeat(1001);
    assert!(v.validate_api_key("spotify", &long).is_err());
    assert!(v.validate_api_key("spotify", "          ").is_err());
}

#[test]
fn url_validation_accepts_supported_platforms_only() {
    let v = InputValidator::new();
    assert!(v.validate_url("https://www.youtube.com/watch?v=abc").is_ok());
    assert!(v.validate_url("https://youtu.be/abc").is_ok());
    assert!(v.validate_url("https://open.spotify.com/track/x").is_ok());
    assert!(v.validate_url("https://example.com/song").is_err());
    assert!(v.validate_url("not a url").is_err());
    assert!(v.validate_url("").is_err());
}

#[test]
fn download_path_probe_decision() {
    let v = InputValidator::new();
    assert!(v.validate_download_path("/music", true, true, false).is_ok());
    assert!(v.validate_download_path("/music", false, false, false).is_err());
    assert!(v.validate_download_path("/music", true, false, false).is_err());
    assert!(v.validate_download_path("/music", true, true, true).is_err());
    assert!(v.validate_download_path("", true, true, false).is_err());
}

#[test]
fn defaults_and_settings_updates() {
    let c = AppConfig::default();
    assert_eq!(c.max_concurrent_downloads, 3);
    assert_eq!(c.preferred_quality, AudioQuality::High);
    assert_eq!(c.get_quality_bitrate(), 256);
    assert_eq!(c.get_format_extension(), "mp3");
    assert!(c.ui.auto_start_downloads);

    let update = SettingsUpdate {
        download_path: Some(String::from("/music")),
        max_concurrent_downloads: Some(5),
        preferred_quality: Some(String::from("best")),
        preferred_format: Some(String::from("flac")),
        enable_metadata: None,
        enable_lyrics: Some(false),
        enable_cover_art: None,
        spotify_client_id: Some(String::from("SECRET-REDACTED")),
        spotify_client_secret: None,
        musixmatch_client_id: None,
        musixmatch_client_secret: None,
        genius_client_id: None,
        genius_client_secret: None,
        deezer_api_key: None,
        theme: Some(String::from("light")),
        show_notifications: None,
        auto_start_downloads: Some(false),
        minimize_to_tray: None,
        proxy: None,
    };
    let c2 = c.apply_settings_update(update);
    assert_eq!(c2.download_path, "/music");
    assert_eq!(c2.max_concurrent_downloads, 5);
    assert_eq!(c2.preferred_quality, AudioQuality::Best);
    assert_eq!(c2.preferred_format, AudioFormat::Flac);
    assert_eq!(c2.get_quality_bitrate(), 320);
    assert_eq!(c2.get_format_extension(), "flac");
    assert!(!c2.enable_lyrics);
    assert!(c2.enable_metadata);
    assert_eq!(c2.ui.theme, "light");
    assert!(!c2.ui.auto_start_downloads);
    // An unknown quality name falls back.
    assert_eq!(parse_quality("ultra"), AudioQuality::High);
    assert_eq!(parse_format("aiff"), AudioFormat::Mp3);
}

#[test]
fn gpu_detection_ladder_and_flags() {
    assert_eq!(detect_gpu_acceleration(true, true, true, true, true), GpuAcceleration::Nvenc);
    assert_eq!(detect_gpu_acceleration(false, true, true, true, true), GpuAcceleration::Qsv);
    assert_eq!(detect_gpu_acceleration(false, false, true, false, false), GpuAcceleration::Amf);
    assert_eq!(detect_gpu_acceleration(false, false, false, true, false), GpuAcceleration::Amf);
    assert_eq!(detect_gpu_acceleration(false, false, false, false, true), GpuAcceleration::Amf);
    assert_eq!(
        detect_gpu_acceleration(false, false, false, false, false),
        GpuAcceleration::Disabled
    );

    let mut perf = trackdown::config::PerformanceConfig::default();
    perf.gpu_acceleration = GpuAcceleration::Nvenc;
    assert_eq!(perf.get_gpu_args(GpuAcceleration::Disabled), vec!["-hwaccel", "cuda"]);
    perf.gpu_acceleration = GpuAcceleration::Auto;
    assert_eq!(perf.get_gpu_args(GpuAcceleration::Qsv), vec!["-hwaccel", "qsv"]);
    assert_eq!(perf.get_gpu_args(GpuAcceleration::Amf), Vec::<String>::new());
}

#[test]
fn fetch_retry_policy_alternates_header_styles() {
    assert_eq!(fetch_style_for_attempt(1), FetchStyle::FullHeaders);
    assert_eq!(fetch_style_for_attempt(2), FetchStyle::Minimal);
    assert_eq!(fetch_style_for_attempt(3), FetchStyle::FullHeaders);
    assert!(should_retry_fetch(1));
    assert!(should_retry_fetch(2));
    assert!(!should_retry_fetch(3));
}

#[test]
fn transfer_progress_arithmetic() {
    let p = DownloadProgress::new(50, 200);
    assert_eq!(p.progress_percent, 25);
    assert_eq!(DownloadProgress::new(0, 0).progress_percent, 0);
    assert_eq!(DownloadProgress::new(300, 200).progress_percent, 100);
    let with_speed = p.with_speed(50, 1);
    assert_eq!(with_speed.speed_bytes_per_sec, Some(50));
    assert_eq!(with_speed.estimated_remaining_secs, Some(3));
}

#[test]
fn strategy_selection_and_format_support() {
    assert!(supports_format(StrategyKind::Primary, "opus"));
    assert!(!supports_format(StrategyKind::Fallback, "opus"));
    assert_eq!(find_suitable_downloader("mp3"), StrategyKind::Primary);
    assert_eq!(find_suitable_downloader("ape"), StrategyKind::Primary);
    assert_eq!(vorbis_quality(trackdown::config::AudioQuality::Medium), "4");
}

#[test]
fn move_retry_backs_off_on_transient_errors_only() {
    assert!(should_retry_move(MoveErrorKind::PermissionDenied, 10));
    assert!(should_retry_move(MoveErrorKind::AlreadyExists, 2));
    assert!(!should_retry_move(MoveErrorKind::AlreadyExists, 1));
    assert!(!should_retry_move(MoveErrorKind::Fatal, 10));
    assert_eq!(move_retry_delay_ms(10), 100);
    assert_eq!(move_retry_delay_ms(9), 200);
    assert_eq!(move_retry_delay_ms(1), 1000);
}

#[test]
fn downloaded_file_is_found_by_expected_then_any_audio_extension() {
    let exts = vec![String::from("txt"), String::from("webm"), String::from("mp3")];
    assert_eq!(find_downloaded_file(&exts, "mp3"), Some(2));
    assert_eq!(find_downloaded_file(&exts, "flac"), Some(1));
    let none = vec![String::from("txt"), String::from("json")];
    assert_eq!(find_downloaded_file(&none, "mp3"), None);
}

fn fmt(id: &str, acodec: &str, vcodec: &str, abr: Option<u64>) -> FormatInfo {
    FormatInfo {
        format_id: String::from(id),
        ext: String::from("webm"),
        acodec: String::from(acodec),
        vcodec: String::from(vcodec),
        abr,
        vbr: None,
        filesize: None,
        url: None,
    }
}

#[test]
fn audio_format_selection_by_quality_tier() {
    let formats = vec![
        fmt("video", "opus", "vp9", Some(999)),
        fmt("low", "opus", "none", Some(96)),
        fmt("mid", "opus", "none", Some(160)),
        fmt("high", "opus", "none", Some(251)),
    ];
    assert_eq!(select_audio_format(&Some(formats.clone()), Tier::Best).unwrap(), "high");
    assert_eq!(select_audio_format(&Some(formats.clone()), Tier::High).unwrap(), "high");
    assert_eq!(select_audio_format(&Some(formats.clone()), Tier::Medium).unwrap(), "mid");
    assert_eq!(select_audio_format(&Some(formats.clone()), Tier::Low).unwrap(), "low");
    // An empty tier falls back to the first audio-only format.
    let lossy_only = vec![fmt("only", "opus", "none", Some(96))];
    assert_eq!(select_audio_format(&Some(lossy_only), Tier::High).unwrap(), "only");
    // No audio-only format at all is a hard failure.
    let video_only = vec![fmt("video", "opus", "vp9", Some(999))];
    assert!(select_audio_format(&Some(video_only), Tier::Best).is_err());
    // A bare search hit has no format list.
    assert_eq!(select_audio_format(&None, Tier::Best).unwrap(), "bestaudio");
}

#[test]
fn source_resolution_prefers_the_explicit_url() {
    let hits = vec![String::from("https://a"), String::from("https://b")];
    assert_eq!(choose_source("https://direct", &hits).unwrap(), "https://direct");
    assert_eq!(choose_source("", &hits).unwrap(), "https://a");
    assert!(choose_source("", &Vec::new()).is_err());
}

#[test]
fn search_expression_carries_the_limit() {
    assert_eq!(build_search_expression("daft punk", 1), "ytsearch1:daft punk");
    assert_eq!(build_search_expression("x", 25), "ytsearch25:x");
}

#[test]
fn track_names_are_cleaned_of_noise_suffixes() {
    assert_eq!(clean_track_name("One More Time (Official Video)"), "One More Time");
    assert_eq!(clean_track_name("  One More Time (Lyrics) "), "One More Time");
    assert_eq!(clean_track_name("Plain Title"), "Plain Title");
}

#[test]
fn processor_responses_are_read_strictly() {
    assert!(interpret_processor_response(Some(true), None).is_ok());
    let e = interpret_processor_response(Some(false), Some(String::from("boom"))).unwrap_err();
    assert_eq!(e.message(), "boom");
    assert!(interpret_processor_response(None, None).is_err());
}

#[test]
fn embedded_metadata_checks_spot_placeholders() {
    let issues = check_embedded_metadata("Unknown Title", "Daft Punk", Some(3));
    assert!(issues.bad_title);
    assert!(!issues.bad_artist);
    assert!(!issues.missing_track_number);
    assert!(issues.any());
    let clean = check_embedded_metadata("One More Time", "Daft Punk", Some(3));
    assert!(!clean.any());
}

#[test]
fn basic_metadata_fallback_fills_gaps_from_the_track() {
    let track = trackdown::api::TrackInfo {
        id: String::from("t"),
        title: String::from("Track Title"),
        artist: String::from("Track Artist"),
        album: Some(String::from("Track Album")),
        duration: None,
        year: Some(2001),
        genre: None,
        thumbnail_url: Some(String::from("https://img")),
        source: String::from("test"),
        url: String::new(),
        isrc: None,
        album_artist: None,
        track_number: Some(7),
        disc_number: None,
        composer: None,
        quality: None,
        format: None,
    };
    let m = basic_metadata_fallback(&None, &track, 4);
    assert_eq!(m.title, "Track Title");
    assert_eq!(m.album.as_deref(), Some("Track Album"));
    // The queue position always wins as the embedded track number.
    assert_eq!(m.track_number, Some(4));
    assert_eq!(m.cover_art_url.as_deref(), Some("https://img"));
}

#[test]
fn catalog_urls_classify_and_carry_their_id() {
    let (kind, id) = parse_spotify_url("https://open.spotify.com/track/4iV5W9uYEdYUVa79Axb7Rh")
        .unwrap();
    assert_eq!(kind, SpotifyUrlKind::Track);
    assert_eq!(id, "4iV5W9uYEdYUVa79Axb7Rh");
    let (kind2, id2) =
        parse_spotify_url("https://open.spotify.com/playlist/37i9dQZF1DXcBWIGoYBM5M?si=x").unwrap();
    assert_eq!(kind2, SpotifyUrlKind::Playlist);
    assert_eq!(id2, "37i9dQZF1DXcBWIGoYBM5M");
    assert!(parse_spotify_url("https://open.spotify.com/album/").is_err());
    assert!(parse_spotify_url("https://example.com/track/x").is_err());
}

#[test]
fn release_dates_yield_their_year() {
    assert_eq!(extract_year_from_date("2014-10-06"), Some(2014));
    assert_eq!(extract_year_from_date("2019"), Some(2019));
    assert_eq!(extract_year_from_date("19"), None);
    assert_eq!(extract_year_from_date("abcd-01-01"), None);
}

#[test]
fn csv_rows_are_normalised() {
    let fields = vec![
        String::from("1"),
        String::from("One More Time"),
        String::from("Discovery"),
        String::from("Daft Punk;Romanthony"),
        String::from("2001-03-07"),
        String::from("320000"),
        String::from("88"),
        String::from(""),
        String::from(""),
        String::from(""),
        String::from("house, french house"),
    ];
    let t = parse_csv_track_record(&fields, 5);
    assert_eq!(t.title, "One More Time");
    assert_eq!(t.artist, "Daft Punk, Romanthony");
    assert_eq!(t.album, "Discovery");
    assert_eq!(t.year, Some(2001));
    assert_eq!(t.duration_secs, 320);
    assert_eq!(t.popularity, 88);
    assert_eq!(t.track_number, 5);

    let short = vec![String::from("1")];
    let d = parse_csv_track_record(&short, 1);
    assert_eq!(d.title, "Unknown");
    assert_eq!(d.duration_secs, 0);

    assert!(is_csv_header(&vec![String::from("Position")]));
    assert!(!is_csv_header(&fields));
}

#[test]
fn csv_track_ids_are_lowercased_and_underscored() {
    assert_eq!(
        build_csv_track_id("Daft Punk", "One More Time"),
        "csv_daft_punk_one_more_time"
    );
}

#[test]
fn encryption_round_trips_and_is_no_identity() {
    let key: Vec<u8> = (0u8..32u8).collect();
    let sealed = encrypt_data("a sensitive token", &key).unwrap();
    // Hex of the plaintext would be this; the ciphertext must differ.
    assert_ne!(sealed, hex_encode(&b"a sensitive token".to_vec()));
    let opened = decrypt_data(&sealed, &key).unwrap();
    assert_eq!(opened, "a sensitive token");
    // A tampered ciphertext fails to authenticate.
    let mut tampered = sealed.clone().into_bytes();
    let last = tampered.len() - 1;
    tampered[last] = if tampered[last] == b'0' { b'1' } else { b'0' };
    let tampered = String::from_utf8(tampered).unwrap();
    assert!(decrypt_data(&tampered, &key).is_err());
}

#[test]
fn hex_codec_round_trips() {
    let bytes = vec![0xde, 0xad, 0xbe, 0xef, 0x00, 0x0f];
    let text = hex_encode(&bytes);
    assert_eq!(text, "deadbeef000f");
    assert_eq!(hex_decode(&text).unwrap(), bytes);
    assert_eq!(hex_decode("deadbeef000F").unwrap(), bytes);
    assert_eq!(hex_decode("abc"), None);
    assert_eq!(hex_decode("zz"), None);
}

#[test]
fn fallback_strategy_identity_and_formats() {
    let fallback = PythonDownloader::new();
    assert_eq!(fallback.get_name(), "python-downloader");
    assert!(fallback.supports_format("mp3"));
    assert!(!fallback.supports_format("opus"));
}

#[test]
fn postprocessor_line_carries_threads_codec_and_bitrate() {
    let mut perf = trackdown::config::PerformanceConfig::default();
    perf.ffmpeg_hardware_accel = false;
    let line = build_postprocessor_args(AudioFormat::Mp3, Tier::High, &perf, GpuAcceleration::Disabled);
    assert_eq!(line, "-threads 4 -c:a libmp3lame -b:a 256k");
    perf.ffmpeg_hardware_accel = true;
    perf.gpu_acceleration = GpuAcceleration::Nvenc;
    let line2 = build_postprocessor_args(AudioFormat::Flac, Tier::Best, &perf, GpuAcceleration::Disabled);
    assert_eq!(line2, "-threads 4 -c:a flac -b:a 320k -hwaccel cuda");
}

#[test]
fn fetch_tool_arguments_are_assembled_in_order() {
    let perf = trackdown::config::PerformanceConfig::default();
    let args = build_fetch_tool_args(
        AudioFormat::Mp3,
        Tier::High,
        &perf,
        "/tmp/work/audio.%(ext)s",
        "-threads 4 -c:a libmp3lame -b:a 256k",
        "/usr/bin",
        "https://example.invalid/v",
    );
    assert_eq!(args.len(), 28);
    assert_eq!(args[0], "--extract-audio");
    assert_eq!(args[2], "mp3");
    assert_eq!(args[4], "high");
    assert_eq!(args[6], "/tmp/work/audio.%(ext)s");
    assert_eq!(args[16], "15");
    assert_eq!(args[20], "4");
    assert_eq!(args[24], "ffmpeg:-threads 4 -c:a libmp3lame -b:a 256k");
    assert_eq!(args[27], "https://example.invalid/v");
}

#[test]
fn search_front_fills_defaults_and_reads_answers() {
    let sm = SearchManager::new();
    let q = SearchQuery {
        query: String::from("daft punk"),
        limit: None,
        platforms: None,
        deep_search: false,
    };
    assert_eq!(sm.effective_limit(&q), 3);
    assert_eq!(sm.effective_platforms(&q).len(), 4);
    let q2 = SearchQuery {
        query: String::from("daft punk"),
        limit: Some(10),
        platforms: Some(vec![String::from("youtube")]),
        deep_search: true,
    };
    assert_eq!(sm.effective_limit(&q2), 10);
    assert_eq!(sm.effective_platforms(&q2), vec![String::from("youtube")]);
    let r = sm.interpret_search_response(Vec::new(), 7, "deep");
    assert!(r.deduplicated);
    assert_eq!(r.total, 7);
    assert_eq!(r.sources_used, vec![String::from("deep")]);
    let r2 = sm.interpret_search_response(Vec::new(), 1, "quick");
    assert!(!r2.deduplicated);
}

#[test]
fn processing_quality_tiers() {
    assert_eq!(ProcTier::Low.get_bitrate(), 128);
    assert_eq!(ProcTier::Best.get_bitrate(), 320);
    assert_eq!(ProcTier::Lossless.get_bitrate(), 0);
    assert!(ProcTier::Lossless.is_lossless());
    assert!(!ProcTier::High.is_lossless());
}

#[test]
fn resolver_titles_split_into_artist_and_song() {
    assert_eq!(
        parse_track_info("Fallback Artist", "Daft Punk - One More Time (Lyrics)"),
        (String::from("Daft Punk"), String::from("One More Time"))
    );
    assert_eq!(
        parse_track_info("Fallback Artist", "SomeChannel - Daft Punk - One More Time"),
        (String::from("Daft Punk"), String::from("One More Time"))
    );
    assert_eq!(
        parse_track_info("Daft Punk", "One More Time"),
        (String::from("Daft Punk"), String::from("One More Time"))
    );
}

#[test]
fn cache_keys_compose_query_and_source() {
    assert_eq!(build_search_cache_key("daft punk one more time", 1), "search:daft punk one more time:1");
    assert_eq!(build_search_cache_key("x", 25), "search:x:25");
    assert_eq!(build_info_cache_key("https://example.invalid/v"), "info:https://example.invalid/v");
}
