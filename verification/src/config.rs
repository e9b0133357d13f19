//! Engine configuration: quality and format preferences, performance
//! knobs, hardware-acceleration selection, and settings updates.

use vstd::prelude::*;
use vstd::string::StringExecFns;
use crate::text::{str_eq, views_of};

verus! {

/// Quality tiers and the fixed bitrate each maps to.
#[derive(Debug, Clone, Copy, PartialEq, Eq, Structural)]
pub enum AudioQuality {
    Low,
    Medium,
    High,
    Best,
}

/// The audio formats the engine can ask the fetch tool for.
#[derive(Debug, Clone, Copy, PartialEq, Eq, Structural)]
pub enum AudioFormat {
    Mp3,
    M4a,
    Flac,
    Wav,
}

/// Which hardware acceleration the transcoder should use. `Auto` defers
/// to a probe of the machine.
#[derive(Debug, Clone, Copy, PartialEq, Eq, Structural)]
pub enum GpuAcceleration {
    Disabled,
    Nvenc,
    Qsv,
    Amf,
    VideoToolbox,
    Auto,
}

/// API credentials for the metadata and lyrics providers.
#[derive(Debug, Clone)]
pub struct ApiKeys {
    pub spotify_client_id: Option<String>,
    pub spotify_client_secret: Option<String>,
    pub musicbrainz_user_agent: Option<String>,
    pub youtube: Option<String>,
    pub soundcloud: Option<String>,
    pub musixmatch_client_id: Option<String>,
    pub musixmatch_client_secret: Option<String>,
    pub genius_client_id: Option<String>,
    pub genius_client_secret: Option<String>,
    pub deezer_api_key: Option<String>,
}

/// Settings of the surrounding user interface the engine must honour.
#[derive(Debug, Clone)]
pub struct UiConfig {
    pub theme: String,
    pub show_notifications: bool,
    pub auto_start_downloads: bool,
    pub minimize_to_tray: bool,
}

/// Performance knobs handed to the fetch tool and transcoder.
#[derive(Debug, Clone, Copy, PartialEq, Eq, Structural)]
pub struct PerformanceConfig {
    pub enable_parallel_processing: bool,
    pub max_concurrent_fragments: u32,
    pub ffmpeg_threads: u32,
    pub socket_timeout: u32,
    pub enable_sponsorblock: bool,
    pub gpu_acceleration: GpuAcceleration,
    pub ffmpeg_hardware_accel: bool,
}

/// The engine's configuration.
#[derive(Debug, Clone)]
pub struct AppConfig {
    pub download_path: String,
    pub max_concurrent_downloads: usize,
    pub preferred_quality: AudioQuality,
    pub preferred_format: AudioFormat,
    pub enable_metadata: bool,
    pub enable_lyrics: bool,
    pub enable_cover_art: bool,
    pub api_keys: ApiKeys,
    pub ui: UiConfig,
    pub proxy: Option<String>,
    pub performance: PerformanceConfig,
}

impl Default for ApiKeys {
    fn default() -> (r: ApiKeys)
        ensures
            r.spotify_client_id is None,
            r.spotify_client_secret is None,
            r.musicbrainz_user_agent is Some,
            r.youtube is None,
            r.soundcloud is None,
            r.musixmatch_client_id is None,
            r.musixmatch_client_secret is None,
            r.genius_client_id is None,
            r.genius_client_secret is None,
            r.deezer_api_key is None,
    {
        ApiKeys {
            spotify_client_id: None,
            spotify_client_secret: None,
            musicbrainz_user_agent: Some(String::from_str("SpotifyDownloader/1.0")),
            youtube: None,
            soundcloud: None,
            musixmatch_client_id: None,
            musixmatch_client_secret: None,
            genius_client_id: None,
            genius_client_secret: None,
            deezer_api_key: None,
        }
    }
}

impl Default for UiConfig {
    fn default() -> (r: UiConfig)
        ensures
            r.theme@ == "dark"@,
            r.show_notifications,
            r.auto_start_downloads,
            !r.minimize_to_tray,
    {
        UiConfig {
            theme: String::from_str("dark"),
            show_notifications: true,
            auto_start_downloads: true,
            minimize_to_tray: false,
        }
    }
}

impl Default for PerformanceConfig {
    fn default() -> (r: PerformanceConfig)
        ensures
            r == (PerformanceConfig {
                enable_parallel_processing: true,
                max_concurrent_fragments: 4u32,
                ffmpeg_threads: 4u32,
                socket_timeout: 15u32,
                enable_sponsorblock: false,
                gpu_acceleration: GpuAcceleration::Auto,
                ffmpeg_hardware_accel: true,
            }),
    {
        PerformanceConfig {
            enable_parallel_processing: true,
            max_concurrent_fragments: 4,
            ffmpeg_threads: 4,
            socket_timeout: 15,
            enable_sponsorblock: false,
            gpu_acceleration: GpuAcceleration::Auto,
            ffmpeg_hardware_accel: true,
        }
    }
}

impl Default for AppConfig {
    fn default() -> (r: AppConfig)
        ensures
            r.download_path@ == "./downloads"@,
            r.max_concurrent_downloads == 3,
            r.preferred_quality == AudioQuality::High,
            r.preferred_format == AudioFormat::Mp3,
            r.enable_metadata && r.enable_lyrics && r.enable_cover_art,
            r.proxy is Some,
            r.ui.auto_start_downloads,
            r.performance == (PerformanceConfig {
                enable_parallel_processing: true,
                max_concurrent_fragments: 4u32,
                ffmpeg_threads: 4u32,
                socket_timeout: 15u32,
                enable_sponsorblock: false,
                gpu_acceleration: GpuAcceleration::Auto,
                ffmpeg_hardware_accel: true,
            }),
    {
        AppConfig {
            download_path: String::from_str("./downloads"),
            max_concurrent_downloads: 3,
            preferred_quality: AudioQuality::High,
            preferred_format: AudioFormat::Mp3,
            enable_metadata: true,
            enable_lyrics: true,
            enable_cover_art: true,
            api_keys: Default::default(),
            ui: Default::default(),
            proxy: Some(String::from_str("http://127.0.0.1:1080")),
            performance: Default::default(),
        }
    }
}

/// The fixed bitrate for each lossy quality tier, in kbit/s.
pub open spec fn spec_quality_bitrate(q: AudioQuality) -> u32 {
    match q {
        AudioQuality::Low => 128,
        AudioQuality::Medium => 192,
        AudioQuality::High => 256,
        AudioQuality::Best => 320,
    }
}

/// The file extension of each format.
pub open spec fn spec_format_extension(f: AudioFormat) -> Seq<char> {
    match f {
        AudioFormat::Mp3 => "mp3"@,
        AudioFormat::M4a => "m4a"@,
        AudioFormat::Flac => "flac"@,
        AudioFormat::Wav => "wav"@,
    }
}

impl AppConfig {
    /// The bitrate the configured quality tier maps to.
    pub fn get_quality_bitrate(&self) -> (r: u32)
        ensures
            r == spec_quality_bitrate(self.preferred_quality),
    {
        match self.preferred_quality {
            AudioQuality::Low => 128,
            AudioQuality::Medium => 192,
            AudioQuality::High => 256,
            AudioQuality::Best => 320,
        }
    }

    /// The file extension of the configured format.
    pub fn get_format_extension(&self) -> (r: &'static str)
        ensures
            r@ == spec_format_extension(self.preferred_format),
    {
        match self.preferred_format {
            AudioFormat::Mp3 => "mp3",
            AudioFormat::M4a => "m4a",
            AudioFormat::Flac => "flac",
            AudioFormat::Wav => "wav",
        }
    }
}

/// Parses a quality name; an unknown name falls back to `High`.
pub open spec fn spec_parse_quality(s: Seq<char>) -> AudioQuality {
    if s =~= "low"@ {
        AudioQuality::Low
    } else if s =~= "medium"@ {
        AudioQuality::Medium
    } else if s =~= "high"@ {
        AudioQuality::High
    } else if s =~= "best"@ {
        AudioQuality::Best
    } else {
        AudioQuality::High
    }
}

/// Runtime quality-name parser.
pub fn parse_quality(s: &str) -> (r: AudioQuality)
    ensures
        r == spec_parse_quality(s@),
{
    if str_eq(s, "low") {
        AudioQuality::Low
    } else if str_eq(s, "medium") {
        AudioQuality::Medium
    } else if str_eq(s, "high") {
        AudioQuality::High
    } else if str_eq(s, "best") {
        AudioQuality::Best
    } else {
        AudioQuality::High
    }
}

/// Parses a format name; an unknown name falls back to `Mp3`.
pub open spec fn spec_parse_format(s: Seq<char>) -> AudioFormat {
    if s =~= "mp3"@ {
        AudioFormat::Mp3
    } else if s =~= "m4a"@ {
        AudioFormat::M4a
    } else if s =~= "flac"@ {
        AudioFormat::Flac
    } else if s =~= "wav"@ {
        AudioFormat::Wav
    } else {
        AudioFormat::Mp3
    }
}

/// Runtime format-name parser.
pub fn parse_format(s: &str) -> (r: AudioFormat)
    ensures
        r == spec_parse_format(s@),
{
    if str_eq(s, "mp3") {
        AudioFormat::Mp3
    } else if str_eq(s, "m4a") {
        AudioFormat::M4a
    } else if str_eq(s, "flac") {
        AudioFormat::Flac
    } else if str_eq(s, "wav") {
        AudioFormat::Wav
    } else {
        AudioFormat::Mp3
    }
}

/// Resolves hardware acceleration from machine probes, in fixed
/// priority: NVIDIA first, then Intel Quick Sync, then AMD (by encoder
/// list or by the device table), and on a Windows machine AMD is tried
/// as the last resort; anywhere else the fallback is none at all.
pub fn detect_gpu_acceleration(
    nvidia_smi_ok: bool,
    qsv_encoder_listed: bool,
    amf_encoder_listed: bool,
    device_table_reports_amd: bool,
    on_windows: bool,
) -> (r: GpuAcceleration)
    ensures
        r == (if nvidia_smi_ok {
            GpuAcceleration::Nvenc
        } else if qsv_encoder_listed {
            GpuAcceleration::Qsv
        } else if amf_encoder_listed {
            GpuAcceleration::Amf
        } else if device_table_reports_amd {
            GpuAcceleration::Amf
        } else if on_windows {
            GpuAcceleration::Amf
        } else {
            GpuAcceleration::Disabled
        }),
{
    if nvidia_smi_ok {
        GpuAcceleration::Nvenc
    } else if qsv_encoder_listed {
        GpuAcceleration::Qsv
    } else if amf_encoder_listed {
        GpuAcceleration::Amf
    } else if device_table_reports_amd {
        GpuAcceleration::Amf
    } else if on_windows {
        GpuAcceleration::Amf
    } else {
        GpuAcceleration::Disabled
    }
}

/// The transcoder flags for one resolved acceleration mode. AMD
/// acceleration adds no flags for audio-only transcodes.
pub open spec fn spec_gpu_args(g: GpuAcceleration) -> Seq<Seq<char>> {
    match g {
        GpuAcceleration::Nvenc => seq!["-hwaccel"@, "cuda"@],
        GpuAcceleration::Qsv => seq!["-hwaccel"@, "qsv"@],
        GpuAcceleration::Amf => Seq::empty(),
        GpuAcceleration::VideoToolbox => seq!["-hwaccel"@, "videotoolbox"@],
        GpuAcceleration::Auto => Seq::empty(),
        GpuAcceleration::Disabled => Seq::empty(),
    }
}

impl PerformanceConfig {
    /// The transcoder's hardware-acceleration flags. When the
    /// configuration says `Auto`, the caller passes what the machine
    /// probe resolved.
    pub fn get_gpu_args(&self, auto_detected: GpuAcceleration) -> (r: Vec<String>)
        ensures
            views_of(r@) == (if self.gpu_acceleration == GpuAcceleration::Auto {
                spec_gpu_args(auto_detected)
            } else {
                spec_gpu_args(self.gpu_acceleration)
            }),
    {
        let effective = if matches!(self.gpu_acceleration, GpuAcceleration::Auto) {
            auto_detected
        } else {
            self.gpu_acceleration
        };
        let mut out: Vec<String> = Vec::new();
        match effective {
            GpuAcceleration::Nvenc => {
                out.push(String::from_str("-hwaccel"));
                out.push(String::from_str("cuda"));
            },
            GpuAcceleration::Qsv => {
                out.push(String::from_str("-hwaccel"));
                out.push(String::from_str("qsv"));
            },
            GpuAcceleration::VideoToolbox => {
                out.push(String::from_str("-hwaccel"));
                out.push(String::from_str("videotoolbox"));
            },
            GpuAcceleration::Amf => {},
            GpuAcceleration::Auto => {},
            GpuAcceleration::Disabled => {},
        }
        proof {
            assert(views_of(out@) =~= (if self.gpu_acceleration == GpuAcceleration::Auto {
                spec_gpu_args(auto_detected)
            } else {
                spec_gpu_args(self.gpu_acceleration)
            }));
        }
        out
    }
}

/// A settings update from the surrounding application: present fields
/// overwrite, absent fields leave the configuration alone.
#[derive(Debug, Clone)]
pub struct SettingsUpdate {
    pub download_path: Option<String>,
    pub max_concurrent_downloads: Option<usize>,
    pub preferred_quality: Option<String>,
    pub preferred_format: Option<String>,
    pub enable_metadata: Option<bool>,
    pub enable_lyrics: Option<bool>,
    pub enable_cover_art: Option<bool>,
    pub spotify_client_id: Option<String>,
    pub spotify_client_secret: Option<String>,
    pub musixmatch_client_id: Option<String>,
    pub musixmatch_client_secret: Option<String>,
    pub genius_client_id: Option<String>,
    pub genius_client_secret: Option<String>,
    pub deezer_api_key: Option<String>,
    pub theme: Option<String>,
    pub show_notifications: Option<bool>,
    pub auto_start_downloads: Option<bool>,
    pub minimize_to_tray: Option<bool>,
    pub proxy: Option<String>,
}

/// The updated value when one is supplied, the current one otherwise.
pub fn opt_or<T>(upd: Option<T>, cur: T) -> (r: T)
    ensures
        r == (match upd {
            Some(v) => v,
            None => cur,
        }),
{
    match upd {
        Some(v) => v,
        None => cur,
    }
}

impl AppConfig {
    /// Applies a settings update field by field: a present field
    /// replaces the configured value (quality and format names parsed
    /// with their fallbacks), an absent field changes nothing.
    #[verifier::rlimit(60)]
    pub fn apply_settings_update(self, update: SettingsUpdate) -> (r: AppConfig)
        ensures
            r.download_path == (match update.download_path {
                Some(p) => p,
                None => self.download_path,
            }),
            r.max_concurrent_downloads == (match update.max_concurrent_downloads {
                Some(m) => m,
                None => self.max_concurrent_downloads,
            }),
            r.preferred_quality == (match update.preferred_quality {
                Some(q) => spec_parse_quality(q@),
                None => self.preferred_quality,
            }),
            r.preferred_format == (match update.preferred_format {
                Some(f) => spec_parse_format(f@),
                None => self.preferred_format,
            }),
            r.enable_metadata == (match update.enable_metadata {
                Some(b) => b,
                None => self.enable_metadata,
            }),
            r.enable_lyrics == (match update.enable_lyrics {
                Some(b) => b,
                None => self.enable_lyrics,
            }),
            r.enable_cover_art == (match update.enable_cover_art {
                Some(b) => b,
                None => self.enable_cover_art,
            }),
            r.api_keys.spotify_client_id == (match update.spotify_client_id {
                Some(v) => Some(v),
                None => self.api_keys.spotify_client_id,
            }),
            r.api_keys.spotify_client_secret == (match update.spotify_client_secret {
                Some(v) => Some(v),
                None => self.api_keys.spotify_client_secret,
            }),
            r.api_keys.musixmatch_client_id == (match update.musixmatch_client_id {
                Some(v) => Some(v),
                None => self.api_keys.musixmatch_client_id,
            }),
            r.api_keys.musixmatch_client_secret == (match update.musixmatch_client_secret {
                Some(v) => Some(v),
                None => self.api_keys.musixmatch_client_secret,
            }),
            r.api_keys.genius_client_id == (match update.genius_client_id {
                Some(v) => Some(v),
                None => self.api_keys.genius_client_id,
            }),
            r.api_keys.genius_client_secret == (match update.genius_client_secret {
                Some(v) => Some(v),
                None => self.api_keys.genius_client_secret,
            }),
            r.api_keys.deezer_api_key == (match update.deezer_api_key {
                Some(v) => Some(v),
                None => self.api_keys.deezer_api_key,
            }),
            r.api_keys.musicbrainz_user_agent == self.api_keys.musicbrainz_user_agent,
            r.api_keys.youtube == self.api_keys.youtube,
            r.api_keys.soundcloud == self.api_keys.soundcloud,
            r.ui.theme == (match update.theme {
                Some(t) => t,
                None => self.ui.theme,
            }),
            r.ui.show_notifications == (match update.show_notifications {
                Some(b) => b,
                None => self.ui.show_notifications,
            }),
            r.ui.auto_start_downloads == (match update.auto_start_downloads {
                Some(b) => b,
                None => self.ui.auto_start_downloads,
            }),
            r.ui.minimize_to_tray == (match update.minimize_to_tray {
                Some(b) => b,
                None => self.ui.minimize_to_tray,
            }),
            r.proxy == (match update.proxy {
                Some(p) => Some(p),
                None => self.proxy,
            }),
            r.performance == self.performance,
    {
        let quality = match update.preferred_quality {
            Some(q) => parse_quality(q.as_str()),
            None => self.preferred_quality,
        };
        let format = match update.preferred_format {
            Some(f) => parse_format(f.as_str()),
            None => self.preferred_format,
        };
        let proxy = match update.proxy {
            Some(p) => Some(p),
            None => self.proxy,
        };
        let api_keys = ApiKeys {
            spotify_client_id: match update.spotify_client_id {
                Some(v) => Some(v),
                None => self.api_keys.spotify_client_id,
            },
            spotify_client_secret: match update.spotify_client_secret {
                Some(v) => Some(v),
                None => self.api_keys.spotify_client_secret,
            },
            musicbrainz_user_agent: self.api_keys.musicbrainz_user_agent,
            youtube: self.api_keys.youtube,
            soundcloud: self.api_keys.soundcloud,
            musixmatch_client_id: match update.musixmatch_client_id {
                Some(v) => Some(v),
                None => self.api_keys.musixmatch_client_id,
            },
            musixmatch_client_secret: match update.musixmatch_client_secret {
                Some(v) => Some(v),
                None => self.api_keys.musixmatch_client_secret,
            },
            genius_client_id: match update.genius_client_id {
                Some(v) => Some(v),
                None => self.api_keys.genius_client_id,
            },
            genius_client_secret: match update.genius_client_secret {
                Some(v) => Some(v),
                None => self.api_keys.genius_client_secret,
            },
            deezer_api_key: match update.deezer_api_key {
                Some(v) => Some(v),
                None => self.api_keys.deezer_api_key,
            },
        };
        let ui = UiConfig {
            theme: opt_or(update.theme, self.ui.theme),
            show_notifications: opt_or(update.show_notifications, self.ui.show_notifications),
            auto_start_downloads: opt_or(
                update.auto_start_downloads,
                self.ui.auto_start_downloads,
            ),
            minimize_to_tray: opt_or(update.minimize_to_tray, self.ui.minimize_to_tray),
        };
        AppConfig {
            download_path: opt_or(update.download_path, self.download_path),
            max_concurrent_downloads: opt_or(
                update.max_concurrent_downloads,
                self.max_concurrent_downloads,
            ),
            preferred_quality: quality,
            preferred_format: format,
            enable_metadata: opt_or(update.enable_metadata, self.enable_metadata),
            enable_lyrics: opt_or(update.enable_lyrics, self.enable_lyrics),
            enable_cover_art: opt_or(update.enable_cover_art, self.enable_cover_art),
            api_keys,
            ui,
            proxy,
            performance: self.performance,
        }
    }
}

} // verus!
