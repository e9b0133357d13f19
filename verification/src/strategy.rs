//! The downloader strategies: a closed set of two capabilities behind
//! one interface. The primary strategy drives the external fetch tool
//! directly and validates in process; the fallback delegates the whole
//! pipeline to an external script. Also here: strategy selection, the
//! filesystem move-retry policy, locating the produced file, and audio
//! format selection.

use vstd::prelude::*;
use vstd::string::StrSliceExecFns;
use vstd::string::StringExecFns;
use crate::config::{spec_format_extension, spec_gpu_args, spec_quality_bitrate, AudioFormat, AudioQuality, GpuAcceleration, PerformanceConfig};
use crate::errors::AppError;
use crate::text::{
    replaced_of, spec_trim_ws, spec_u64_dec, str_eq, trim_whitespace, replace_all, u64_to_string,
};

verus! {

/// The closed set of downloader strategies, in fixed priority order:
/// the primary first, the fallback second.
#[derive(Debug, Clone, Copy, PartialEq, Eq, Structural)]
pub enum StrategyKind {
    Primary,
    Fallback,
}

/// The formats the primary strategy can produce.
pub open spec fn spec_primary_supports(fmt: Seq<char>) -> bool {
    fmt =~= "mp3"@ || fmt =~= "m4a"@ || fmt =~= "flac"@ || fmt =~= "wav"@ || fmt =~= "ogg"@
        || fmt =~= "webm"@ || fmt =~= "opus"@
}

/// The formats the fallback strategy can produce.
pub open spec fn spec_fallback_supports(fmt: Seq<char>) -> bool {
    fmt =~= "mp3"@ || fmt =~= "m4a"@ || fmt =~= "flac"@ || fmt =~= "wav"@
}

/// Whether one strategy supports a format.
pub open spec fn spec_supports_format(k: StrategyKind, fmt: Seq<char>) -> bool {
    match k {
        StrategyKind::Primary => spec_primary_supports(fmt),
        StrategyKind::Fallback => spec_fallback_supports(fmt),
    }
}

/// Runtime format-support check for one strategy.
pub fn supports_format(kind: StrategyKind, fmt: &str) -> (r: bool)
    ensures
        r == spec_supports_format(kind, fmt@),
{
    match kind {
        StrategyKind::Primary => str_eq(fmt, "mp3") || str_eq(fmt, "m4a") || str_eq(fmt, "flac")
            || str_eq(fmt, "wav") || str_eq(fmt, "ogg") || str_eq(fmt, "webm") || str_eq(
            fmt,
            "opus",
        ),
        StrategyKind::Fallback => str_eq(fmt, "mp3") || str_eq(fmt, "m4a") || str_eq(fmt, "flac")
            || str_eq(fmt, "wav"),
    }
}

/// Picks the downloader for a format: the strategies are tried in fixed
/// priority order and the first that supports the format wins; when
/// none does, the first registered strategy is the last resort.
pub fn find_suitable_downloader(fmt: &str) -> (r: StrategyKind)
    ensures
        spec_primary_supports(fmt@) ==> r == StrategyKind::Primary,
        !spec_primary_supports(fmt@) && spec_fallback_supports(fmt@) ==> r
            == StrategyKind::Fallback,
        !spec_primary_supports(fmt@) && !spec_fallback_supports(fmt@) ==> r
            == StrategyKind::Primary,
{
    if supports_format(StrategyKind::Primary, fmt) {
        StrategyKind::Primary
    } else if supports_format(StrategyKind::Fallback, fmt) {
        StrategyKind::Fallback
    } else {
        StrategyKind::Primary
    }
}

/// A recognised audio file extension.
pub open spec fn spec_audio_extension(ext: Seq<char>) -> bool {
    ext =~= "mp3"@ || ext =~= "m4a"@ || ext =~= "flac"@ || ext =~= "wav"@ || ext =~= "ogg"@
        || ext =~= "opus"@ || ext =~= "ape"@ || ext =~= "webm"@
}

/// Runtime check for a recognised audio extension.
pub fn is_audio_extension(ext: &str) -> (r: bool)
    ensures
        r == spec_audio_extension(ext@),
{
    str_eq(ext, "mp3") || str_eq(ext, "m4a") || str_eq(ext, "flac") || str_eq(ext, "wav")
        || str_eq(ext, "ogg") || str_eq(ext, "opus") || str_eq(ext, "ape") || str_eq(ext, "webm")
}

/// Locates the produced file among the files of the working directory,
/// given their extensions: the first file with the expected extension,
/// else the first with any recognised audio extension, else nothing.
pub fn find_downloaded_file(extensions: &Vec<String>, expected: &str) -> (r: Option<usize>)
    ensures
        match r {
            Some(i) => {
                &&& i < extensions@.len()
                &&& (extensions@[i as int]@ == expected@ || ((forall|j: int|
                    0 <= j < extensions@.len() ==> (#[trigger] extensions@[j])@ != expected@)
                    && spec_audio_extension(extensions@[i as int]@) && (forall|j: int|
                    0 <= j < i ==> !spec_audio_extension((#[trigger] extensions@[j])@))))
                &&& forall|j: int| 0 <= j < i ==> (#[trigger] extensions@[j])@ != expected@
            },
            None => forall|j: int|
                0 <= j < extensions@.len() ==> (#[trigger] extensions@[j])@ != expected@
                    && !spec_audio_extension(extensions@[j]@),
        },
{
    let n = extensions.len();
    let mut i: usize = 0;
    while i < n
        invariant
            n == extensions@.len(),
            i <= n,
            forall|j: int| 0 <= j < i ==> (#[trigger] extensions@[j])@ != expected@,
        decreases n - i,
    {
        if str_eq(extensions[i].as_str(), expected) {
            return Some(i);
        }
        i = i + 1;
    }
    let mut k: usize = 0;
    while k < n
        invariant
            n == extensions@.len(),
            k <= n,
            forall|j: int| 0 <= j < n ==> (#[trigger] extensions@[j])@ != expected@,
            forall|j: int| 0 <= j < k ==> !spec_audio_extension((#[trigger] extensions@[j])@),
        decreases n - k,
    {
        if is_audio_extension(extensions[k].as_str()) {
            return Some(k);
        }
        k = k + 1;
    }
    None
}

/// The kinds of failure a filesystem move can report.
#[derive(Debug, Clone, Copy, PartialEq, Eq, Structural)]
pub enum MoveErrorKind {
    PermissionDenied,
    AlreadyExists,
    Other,
    Fatal,
}

/// The move-retry budget: the atomic move into the final destination is
/// attempted up to this many times.
pub const MOVE_RETRY_BUDGET: u32 = 10;

/// Whether a failed move is retried: only transient lock or contention
/// errors, and only while more than one attempt remains.
pub fn should_retry_move(kind: MoveErrorKind, retries_left: u32) -> (r: bool)
    ensures
        r == ((kind == MoveErrorKind::PermissionDenied || kind == MoveErrorKind::AlreadyExists
            || kind == MoveErrorKind::Other) && retries_left > 1),
{
    matches!(
        kind,
        MoveErrorKind::PermissionDenied | MoveErrorKind::AlreadyExists | MoveErrorKind::Other
    ) && retries_left > 1
}

/// The backoff before the next move attempt, in milliseconds: a fixed
/// base plus a step for every attempt already spent.
pub fn move_retry_delay_ms(retries_left: u32) -> (r: u64)
    requires
        1 <= retries_left <= MOVE_RETRY_BUDGET,
    ensures
        r == 100 + (MOVE_RETRY_BUDGET - retries_left) * 100,
{
    100 + ((MOVE_RETRY_BUDGET - retries_left) as u64) * 100
}

/// One available source format as the resolver lists it.
#[derive(Debug, Clone)]
pub struct FormatInfo {
    pub format_id: String,
    pub ext: String,
    pub acodec: String,
    pub vcodec: String,
    pub abr: Option<u64>,
    pub vbr: Option<u64>,
    pub filesize: Option<u64>,
    pub url: Option<String>,
}

/// A thumbnail as the resolver lists it.
#[derive(Debug, Clone)]
pub struct ThumbnailInfo {
    pub url: String,
    pub height: Option<u64>,
    pub width: Option<u64>,
}

/// An audio-only format: it has an audio codec and no video codec.
pub open spec fn spec_audio_only(f: FormatInfo) -> bool {
    !(f.acodec@ =~= "none"@) && f.vcodec@ =~= "none"@
}

/// The bitrate used for ranking: an absent reading ranks as zero.
pub open spec fn spec_abr(f: FormatInfo) -> u64 {
    match f.abr {
        Some(b) => b,
        None => 0,
    }
}

/// Whether a format falls in the requested quality tier.
pub open spec fn spec_in_tier(f: FormatInfo, q: AudioQuality) -> bool {
    match q {
        AudioQuality::Best => true,
        AudioQuality::High => spec_abr(f) >= 192,
        AudioQuality::Medium => spec_abr(f) >= 128 && spec_abr(f) < 192,
        AudioQuality::Low => spec_abr(f) < 128,
    }
}

fn abr_of(f: &FormatInfo) -> (r: u64)
    ensures
        r == spec_abr(*f),
{
    match f.abr {
        Some(b) => b,
        None => 0,
    }
}

fn in_tier(f: &FormatInfo, q: AudioQuality) -> (r: bool)
    ensures
        r == spec_in_tier(*f, q),
{
    let b = abr_of(f);
    match q {
        AudioQuality::Best => true,
        AudioQuality::High => b >= 192,
        AudioQuality::Medium => b >= 128 && b < 192,
        AudioQuality::Low => b < 128,
    }
}

fn audio_only(f: &FormatInfo) -> (r: bool)
    ensures
        r == spec_audio_only(*f),
{
    !str_eq(f.acodec.as_str(), "none") && str_eq(f.vcodec.as_str(), "none")
}

/// Selects the source format to fetch. With no format list (a bare
/// search result) the resolver's default "bestaudio" is used. Among the
/// audio-only formats, the highest bitrate within the requested tier
/// wins (the last such when tied); if the tier is empty, the first
/// audio-only format; with no audio-only format at all the resolution
/// fails.
pub fn select_audio_format(formats: &Option<Vec<FormatInfo>>, quality: AudioQuality) -> (r: Result<
    String,
    AppError,
>)
    ensures
        match formats {
            None => (r matches Ok(id) && id@ == "bestaudio"@),
            Some(fs) => {
                if exists|i: int| 0 <= i < fs@.len() && spec_audio_only(#[trigger] fs@[i]) {
                    r matches Ok(id) && (exists|i: int|
                        {
                            &&& 0 <= i < fs@.len()
                            &&& spec_audio_only(#[trigger] fs@[i])
                            &&& id@ == fs@[i].format_id@
                            &&& (spec_in_tier(fs@[i], quality) ==> forall|j: int|
                                0 <= j < fs@.len() && spec_audio_only(#[trigger] fs@[j])
                                    && spec_in_tier(fs@[j], quality) ==> (spec_abr(fs@[j])
                                    < spec_abr(fs@[i]) || (spec_abr(fs@[j]) == spec_abr(fs@[i]) && j
                                    <= i)))
                            &&& (!spec_in_tier(fs@[i], quality) ==> (forall|j: int|
                                0 <= j < fs@.len() && spec_audio_only(#[trigger] fs@[j])
                                    ==> !spec_in_tier(fs@[j], quality)) && (forall|j: int|
                                0 <= j < i ==> !spec_audio_only(#[trigger] fs@[j])))
                        })
                } else {
                    r is Err
                }
            },
        },
{
    match formats {
        None => Ok(String::from_str("bestaudio")),
        Some(fs) => {
            let n = fs.len();
            let mut best: Option<usize> = None;
            let mut first_audio: Option<usize> = None;
            let mut i: usize = 0;
            while i < n
                invariant
                    n == fs@.len(),
                    i <= n,
                    match first_audio {
                        Some(fa) => fa < i && spec_audio_only(fs@[fa as int]) && (forall|j: int|
                            0 <= j < fa ==> !spec_audio_only(#[trigger] fs@[j])),
                        None => forall|j: int| 0 <= j < i ==> !spec_audio_only(#[trigger] fs@[j]),
                    },
                    match best {
                        Some(b) => b < i && spec_audio_only(fs@[b as int]) && spec_in_tier(
                            fs@[b as int],
                            quality,
                        ) && (forall|j: int|
                            0 <= j < i && spec_audio_only(#[trigger] fs@[j]) && spec_in_tier(
                                fs@[j],
                                quality,
                            ) ==> (spec_abr(fs@[j]) < spec_abr(fs@[b as int]) || (spec_abr(fs@[j])
                                == spec_abr(fs@[b as int]) && j <= b))),
                        None => forall|j: int|
                            0 <= j < i ==> !(spec_audio_only(#[trigger] fs@[j]) && spec_in_tier(
                                fs@[j],
                                quality,
                            )),
                    },
                decreases n - i,
            {
                if audio_only(&fs[i]) {
                    if matches!(first_audio, None) {
                        first_audio = Some(i);
                    }
                    if in_tier(&fs[i], quality) {
                        let replace = match best {
                            None => true,
                            Some(b) => abr_of(&fs[i]) >= abr_of(&fs[b]),
                        };
                        if replace {
                            best = Some(i);
                        }
                    }
                }
                i = i + 1;
            }
            match best {
                Some(b) => Ok(fs[b].format_id.clone()),
                None => match first_audio {
                    Some(fa) => Ok(fs[fa].format_id.clone()),
                    None => Err(
                        AppError::Download(String::from_str("no audio-only formats available")),
                    ),
                },
            }
        },
    }
}

/// The variable-quality parameter handed to the Vorbis encoder for each
/// quality tier.
pub fn vorbis_quality(q: AudioQuality) -> (r: &'static str)
    ensures
        q == AudioQuality::Low ==> r@ == "2"@,
        q == AudioQuality::Medium ==> r@ == "4"@,
        q == AudioQuality::High ==> r@ == "6"@,
        q == AudioQuality::Best ==> r@ == "8"@,
{
    match q {
        AudioQuality::Low => "2",
        AudioQuality::Medium => "4",
        AudioQuality::High => "6",
        AudioQuality::Best => "8",
    }
}

/// The quality name handed to the fetch tool.
pub fn quality_name(q: AudioQuality) -> (r: &'static str)
    ensures
        q == AudioQuality::Low ==> r@ == "low"@,
        q == AudioQuality::Medium ==> r@ == "medium"@,
        q == AudioQuality::High ==> r@ == "high"@,
        q == AudioQuality::Best ==> r@ == "best"@,
{
    match q {
        AudioQuality::Low => "low",
        AudioQuality::Medium => "medium",
        AudioQuality::High => "high",
        AudioQuality::Best => "best",
    }
}

/// The search expression handed to the resolver: the result limit and
/// the free-text query.
pub fn build_search_expression(query: &str, limit: u64) -> (r: String)
    ensures
        r@ == "ytsearch"@ + spec_u64_dec(limit as nat) + ":"@ + query@,
{
    let mut out = String::from_str("ytsearch");
    let num = u64_to_string(limit);
    out.append(num.as_str());
    out.append(":");
    out.append(query);
    out
}

/// The metadata-cache key under which one search's results are kept:
/// the query and the result limit composed, so different limits cache
/// separately.
pub fn build_search_cache_key(query: &str, limit: u64) -> (r: String)
    ensures
        r@ == "search:"@ + query@ + ":"@ + spec_u64_dec(limit as nat),
{
    let mut out = String::from_str("search:");
    out.append(query);
    out.append(":");
    let num = u64_to_string(limit);
    out.append(num.as_str());
    out
}

/// The metadata-cache key under which one source's resolved
/// information is kept.
pub fn build_info_cache_key(url: &str) -> (r: String)
    ensures
        r@ == "info:"@ + url@,
{
    let mut out = String::from_str("info:");
    out.append(url);
    out
}

/// Resolves the source to fetch: the task's own URL when it has one,
/// else the first search hit, else a hard "no search results" failure.
pub fn choose_source(url: &str, search_hit_urls: &Vec<String>) -> (r: Result<String, AppError>)
    ensures
        url@.len() > 0 ==> (r matches Ok(u) && u@ == url@),
        url@.len() == 0 && search_hit_urls@.len() > 0 ==> (r matches Ok(u) && u@
            == search_hit_urls@[0]@),
        url@.len() == 0 && search_hit_urls@.len() == 0 ==> r is Err,
{
    if !url.is_empty() {
        let mut s = String::new();
        s.append(url);
        Ok(s)
    } else if search_hit_urls.len() > 0 {
        Ok(search_hit_urls[0].clone())
    } else {
        Err(AppError::Download(String::from_str("no search results found")))
    }
}

/// The noise suffixes stripped from fetched video titles before the
/// metadata search.
pub open spec fn spec_cleaned_track_name(s: Seq<char>) -> Seq<char> {
    spec_trim_ws(
        replaced_of(
            replaced_of(
                replaced_of(
                    replaced_of(
                        replaced_of(
                            replaced_of(
                                replaced_of(
                                    replaced_of(
                                        replaced_of(
                                            replaced_of(
                                                replaced_of(
                                                    replaced_of(
                                                        replaced_of(
                                                            replaced_of(
                                                                replaced_of(
                                                                    s,
                                                                    " (Lyrics)"@,
                                                                    ""@,
                                                                ),
                                                                " (Official Video)"@,
                                                                ""@,
                                                            ),
                                                            " (Official Audio)"@,
                                                            ""@,
                                                        ),
                                                        " (Official)"@,
                                                        ""@,
                                                    ),
                                                    " [Official Video]"@,
                                                    ""@,
                                                ),
                                                " [Official Audio]"@,
                                                ""@,
                                            ),
                                            " [Official]"@,
                                            ""@,
                                        ),
                                        " - Lyrics"@,
                                        ""@,
                                    ),
                                    " - Official Video"@,
                                    ""@,
                                ),
                                " - Official Audio"@,
                                ""@,
                            ),
                            " - Official"@,
                            ""@,
                        ),
                        " (Music Video)"@,
                        ""@,
                    ),
                    " [Music Video]"@,
                    ""@,
                ),
                " (Audio)"@,
                ""@,
            ),
            " [Audio]"@,
            ""@,
        ),
    )
}

/// Strips the recognised noise suffixes from a fetched title and trims
/// the remainder.
pub fn clean_track_name(name: &str) -> (r: String)
    ensures
        r@ == spec_cleaned_track_name(name@),
{
    let s1 = replace_all(name, " (Lyrics)", "");
    let s2 = replace_all(s1.as_str(), " (Official Video)", "");
    let s3 = replace_all(s2.as_str(), " (Official Audio)", "");
    let s4 = replace_all(s3.as_str(), " (Official)", "");
    let s5 = replace_all(s4.as_str(), " [Official Video]", "");
    let s6 = replace_all(s5.as_str(), " [Official Audio]", "");
    let s7 = replace_all(s6.as_str(), " [Official]", "");
    let s8 = replace_all(s7.as_str(), " - Lyrics", "");
    let s9 = replace_all(s8.as_str(), " - Official Video", "");
    let s10 = replace_all(s9.as_str(), " - Official Audio", "");
    let s11 = replace_all(s10.as_str(), " - Official", "");
    let s12 = replace_all(s11.as_str(), " (Music Video)", "");
    let s13 = replace_all(s12.as_str(), " [Music Video]", "");
    let s14 = replace_all(s13.as_str(), " (Audio)", "");
    let s15 = replace_all(s14.as_str(), " [Audio]", "");
    trim_whitespace(s15.as_str())
}

/// The fallback strategy: it delegates the whole fetch-and-embed
/// pipeline to an external script process over a structured
/// request/response channel.
pub struct PythonDownloader {
    pub name: String,
}

impl PythonDownloader {
    pub fn new() -> (r: PythonDownloader)
        ensures
            r.name@ == "python-downloader"@,
    {
        PythonDownloader { name: String::from_str("python-downloader") }
    }

    /// The formats this strategy can produce.
    pub fn supports_format(&self, fmt: &str) -> (r: bool)
        ensures
            r == spec_supports_format(StrategyKind::Fallback, fmt@),
    {
        supports_format(StrategyKind::Fallback, fmt)
    }

    pub fn get_name(&self) -> (r: &str)
        ensures
            r@ == self.name@,
    {
        self.name.as_str()
    }
}


/// The transcoder codec for each output format.
pub open spec fn spec_codec_for_format(f: AudioFormat) -> Seq<char> {
    match f {
        AudioFormat::Mp3 => "libmp3lame"@,
        AudioFormat::M4a => "aac"@,
        AudioFormat::Flac => "flac"@,
        AudioFormat::Wav => "pcm_s16le"@,
    }
}

/// Runtime codec lookup.
pub fn codec_for_format(f: AudioFormat) -> (r: &'static str)
    ensures
        r@ == spec_codec_for_format(f),
{
    match f {
        AudioFormat::Mp3 => "libmp3lame",
        AudioFormat::M4a => "aac",
        AudioFormat::Flac => "flac",
        AudioFormat::Wav => "pcm_s16le",
    }
}

/// A list of flags joined onto a command line, each preceded by one
/// space.
pub open spec fn spec_joined_flags(args: Seq<Seq<char>>) -> Seq<char>
    decreases args.len(),
{
    if args.len() == 0 {
        Seq::empty()
    } else {
        spec_joined_flags(args.drop_last()) + " "@ + args.last()
    }
}

/// The transcoder's post-processing arguments, as one line handed to
/// the fetch tool: the thread count, the codec and bitrate for the
/// configured format, and any hardware-acceleration flags.
pub fn build_postprocessor_args(
    format: AudioFormat,
    quality: AudioQuality,
    perf: &PerformanceConfig,
    auto_detected: GpuAcceleration,
) -> (r: String)
    ensures
        r@ == "-threads "@ + crate::text::spec_u64_dec(perf.ffmpeg_threads as nat) + " -c:a "@
            + spec_codec_for_format(format) + " -b:a "@ + crate::text::spec_u64_dec(
            spec_quality_bitrate(quality) as nat,
        ) + "k"@ + (if perf.ffmpeg_hardware_accel {
            spec_joined_flags(
                if perf.gpu_acceleration == GpuAcceleration::Auto {
                    spec_gpu_args(auto_detected)
                } else {
                    spec_gpu_args(perf.gpu_acceleration)
                },
            )
        } else {
            Seq::<char>::empty()
        }),
{
    let mut out = String::from_str("-threads ");
    let threads = u64_to_string(perf.ffmpeg_threads as u64);
    out.append(threads.as_str());
    out.append(" -c:a ");
    out.append(codec_for_format(format));
    out.append(" -b:a ");
    let bitrate = u64_to_string(
        (match quality {
            AudioQuality::Low => 128u32,
            AudioQuality::Medium => 192u32,
            AudioQuality::High => 256u32,
            AudioQuality::Best => 320u32,
        }) as u64,
    );
    out.append(bitrate.as_str());
    out.append("k");
    if perf.ffmpeg_hardware_accel {
        let gpu = perf.get_gpu_args(auto_detected);
        let ghost flags = if perf.gpu_acceleration == GpuAcceleration::Auto {
            spec_gpu_args(auto_detected)
        } else {
            spec_gpu_args(perf.gpu_acceleration)
        };
        let ghost base = out@;
        let n = gpu.len();
        let mut i: usize = 0;
        while i < n
            invariant
                n == gpu@.len(),
                i <= n,
                crate::text::views_of(gpu@) == flags,
                out@ == base + spec_joined_flags(flags.take(i as int)),
            decreases n - i,
        {
            proof {
                assert(flags.take(i as int + 1).drop_last() =~= flags.take(i as int));
                assert(flags.take(i as int + 1).last() == flags[i as int]);
                assert(gpu@[i as int]@ == flags[i as int]);
            }
            out.append(" ");
            out.append(gpu[i].as_str());
            i = i + 1;
        }
        proof {
            assert(flags.take(n as int) =~= flags);
        }
    }
    out
}

/// The full argument list for one invocation of the external fetch
/// tool: extract audio in the configured format and quality to the
/// given working template, single track only, bounded socket timeout,
/// one retry, the configured fragment concurrency, the browser-like
/// agent, the transcoder line, the transcoder's location, and the
/// source last.
pub fn build_fetch_tool_args(
    format: AudioFormat,
    quality: AudioQuality,
    perf: &PerformanceConfig,
    output_template: &str,
    postprocessor_line: &str,
    transcoder_dir: &str,
    source_url: &str,
) -> (r: Vec<String>)
    ensures
        r@.len() == 28,
        r@[0]@ == "--extract-audio"@,
        r@[1]@ == "--audio-format"@,
        r@[2]@ == spec_format_extension(format),
        r@[3]@ == "--audio-quality"@,
        r@[4]@ == (match quality {
            AudioQuality::Low => "low"@,
            AudioQuality::Medium => "medium"@,
            AudioQuality::High => "high"@,
            AudioQuality::Best => "best"@,
        }),
        r@[5]@ == "--output"@,
        r@[6]@ == output_template@,
        r@[7]@ == "--no-playlist"@,
        r@[8]@ == "--no-warnings"@,
        r@[9]@ == "--ignore-errors"@,
        r@[10]@ == "--no-check-certificate"@,
        r@[11]@ == "--extractor-retries"@,
        r@[12]@ == "1"@,
        r@[13]@ == "--fragment-retries"@,
        r@[14]@ == "1"@,
        r@[15]@ == "--socket-timeout"@,
        r@[16]@ == crate::text::spec_u64_dec(perf.socket_timeout as nat),
        r@[17]@ == "--retries"@,
        r@[18]@ == "1"@,
        r@[19]@ == "--concurrent-fragments"@,
        r@[20]@ == crate::text::spec_u64_dec(perf.max_concurrent_fragments as nat),
        r@[21]@ == "--user-agent"@,
        r@[22]@ == "Mozilla/5.0 (Windows NT 10.0; Win64; x64) AppleWebKit/537.36"@,
        r@[23]@ == "--postprocessor-args"@,
        r@[24]@ == "ffmpeg:"@ + postprocessor_line@,
        r@[25]@ == "--ffmpeg-location"@,
        r@[26]@ == transcoder_dir@,
        r@[27]@ == source_url@,
{
    let mut out: Vec<String> = Vec::new();
    out.push(String::from_str("--extract-audio"));
    out.push(String::from_str("--audio-format"));
    out.push(
        String::from_str(
            match format {
                AudioFormat::Mp3 => "mp3",
                AudioFormat::M4a => "m4a",
                AudioFormat::Flac => "flac",
                AudioFormat::Wav => "wav",
            },
        ),
    );
    out.push(String::from_str("--audio-quality"));
    out.push(String::from_str(quality_name(quality)));
    out.push(String::from_str("--output"));
    out.push(String::from_str(output_template));
    out.push(String::from_str("--no-playlist"));
    out.push(String::from_str("--no-warnings"));
    out.push(String::from_str("--ignore-errors"));
    out.push(String::from_str("--no-check-certificate"));
    out.push(String::from_str("--extractor-retries"));
    out.push(String::from_str("1"));
    out.push(String::from_str("--fragment-retries"));
    out.push(String::from_str("1"));
    out.push(String::from_str("--socket-timeout"));
    out.push(u64_to_string(perf.socket_timeout as u64));
    out.push(String::from_str("--retries"));
    out.push(String::from_str("1"));
    out.push(String::from_str("--concurrent-fragments"));
    out.push(u64_to_string(perf.max_concurrent_fragments as u64));
    out.push(String::from_str("--user-agent"));
    out.push(String::from_str("Mozilla/5.0 (Windows NT 10.0; Win64; x64) AppleWebKit/537.36"));
    out.push(String::from_str("--postprocessor-args"));
    let mut pp = String::from_str("ffmpeg:");
    pp.append(postprocessor_line);
    out.push(pp);
    out.push(String::from_str("--ffmpeg-location"));
    out.push(String::from_str(transcoder_dir));
    out.push(String::from_str(source_url));
    out
}


/// A title separator (" - ") stands at this position.
pub open spec fn spec_sep_at(s: Seq<char>, i: int) -> bool {
    0 <= i && i + 3 <= s.len() && s[i] == ' ' && s[i + 1] == '-' && s[i + 2] == ' '
}

/// Finds the first title separator.
fn find_first_sep(s: &str) -> (r: Option<usize>)
    ensures
        match r {
            Some(i) => spec_sep_at(s@, i as int) && (forall|j: int|
                0 <= j < i ==> !spec_sep_at(s@, j)),
            None => forall|j: int| !spec_sep_at(s@, j),
        },
{
    let n = s.unicode_len();
    if n < 3 {
        return None;
    }
    let mut i: usize = 0;
    while i <= n - 3
        invariant
            n == s@.len(),
            n >= 3,
            i <= n - 2,
            forall|j: int| 0 <= j < i ==> !spec_sep_at(s@, j),
        decreases n - i,
    {
        if s.get_char(i) == ' ' && s.get_char(i + 1) == '-' && s.get_char(i + 2) == ' ' {
            return Some(i);
        }
        i = i + 1;
    }
    None
}

/// Splits a resolver-supplied video title into artist and track name.
/// Titles often read "Artist - Song" or "Channel - Artist - Song": the
/// pieces around the first one or two " - " separators are taken, the
/// last piece always as the song, and both halves are cleaned of the
/// recognised noise suffixes. A title with no separator keeps the
/// caller's own artist.
pub fn parse_track_info(artist: &str, title: &str) -> (r: (String, String))
    ensures
        (forall|j: int| !spec_sep_at(title@, j)) ==> r.0@ == spec_cleaned_track_name(artist@)
            && r.1@ == spec_cleaned_track_name(title@),
        forall|i: int|
            (spec_sep_at(title@, i) && (forall|j: int| 0 <= j < i ==> !spec_sep_at(title@, j)))
                ==> {
                let rest = title@.skip(i + 3);
                &&& ((forall|j2: int| !spec_sep_at(rest, j2)) ==> r.0@ == spec_cleaned_track_name(
                    title@.take(i),
                ) && r.1@ == spec_cleaned_track_name(rest))
                &&& forall|j2: int|
                    (spec_sep_at(rest, j2) && (forall|k: int|
                        0 <= k < j2 ==> !spec_sep_at(rest, k))) ==> r.0@
                        == spec_cleaned_track_name(rest.take(j2)) && r.1@
                        == spec_cleaned_track_name(rest.skip(j2 + 3))
            },
{
    broadcast use vstd::seq::group_seq_axioms;

    match find_first_sep(title) {
        None => (clean_track_name(artist), clean_track_name(title)),
        Some(i) => {
            let n = title.unicode_len();
            let head = title.substring_char(0, i);
            let rest = title.substring_char(i + 3, n);
            match find_first_sep(rest) {
                None => (clean_track_name(head), clean_track_name(rest)),
                Some(j) => {
                    let m = rest.unicode_len();
                    let mid = rest.substring_char(0, j);
                    let tail = rest.substring_char(j + 3, m);
                    (clean_track_name(mid), clean_track_name(tail))
                },
            }
        },
    }
}

} // verus!
