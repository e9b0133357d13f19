//! Validation rules: fetched-file limits (an oversized or overlong file
//! is likely a whole album, not a single track — a hard failure) and the
//! checks on caller-supplied paths, queries and keys.

use vstd::prelude::*;
use vstd::string::StrSliceExecFns;
use vstd::string::StringSliceAdditionalSpecFns;
use crate::errors::AppError;
use crate::text::{
    is_control, is_space, is_space_char, lower_of, spec_contains_sub, spec_sanitize_char,
    str_contains_sub, str_eq, string_from_chars, to_lowercase,
};

verus! {

/// The ceiling on a single fetched track: 60 MiB. Anything larger is
/// rejected as "likely an album".
pub const MAX_TRACK_FILE_BYTES: u64 = 62914560;

/// The ceiling on a single track's duration: 20 minutes.
pub const MAX_TRACK_DURATION_SECS: u64 = 1200;

/// Accepts a fetched file's size, rejecting anything over the ceiling.
pub fn validate_file_size(size_bytes: u64) -> (r: Result<(), AppError>)
    ensures
        r is Ok <==> size_bytes <= MAX_TRACK_FILE_BYTES,
{
    if size_bytes > MAX_TRACK_FILE_BYTES {
        Err(
            AppError::Download(
                String::from_str("file too large - likely an album, not a single track"),
            ),
        )
    } else {
        Ok(())
    }
}

/// Accepts a probed duration, rejecting anything over the ceiling.
pub fn validate_duration(duration_secs: u64) -> (r: Result<(), AppError>)
    ensures
        r is Ok <==> duration_secs <= MAX_TRACK_DURATION_SECS,
{
    if duration_secs > MAX_TRACK_DURATION_SECS {
        Err(
            AppError::Download(
                String::from_str("track too long - likely an album or compilation"),
            ),
        )
    } else {
        Ok(())
    }
}

/// Total seconds of an `HH:MM:SS` reading as the probe tool prints it
/// (fractional seconds truncated by the caller).
pub fn duration_from_parts(hours: u32, minutes: u32, seconds: u32) -> (r: u64)
    ensures
        r == hours * 3600 + minutes * 60 + seconds,
{
    (hours as u64) * 3600 + (minutes as u64) * 60 + (seconds as u64)
}

/// A path separator.
pub open spec fn is_sep_char(c: char) -> bool {
    c == '/' || c == '\u{5c}'
}

/// The path contains a `..` component: two dots standing alone between
/// separators or path ends.
pub open spec fn spec_has_traversal(s: Seq<char>) -> bool {
    exists|i: int|
        0 <= i && i + 2 <= s.len() && #[trigger] s[i] == '.' && s[i + 1] == '.' && (i == 0
            || is_sep_char(s[i - 1])) && (i + 2 == s.len() || is_sep_char(s[i + 2]))
}

/// The string holds a NUL character.
pub open spec fn spec_has_nul(s: Seq<char>) -> bool {
    exists|i: int| 0 <= i < s.len() && #[trigger] s[i] == '\u{0}'
}

/// What `url::Url::parse` extracts as the host of a URL, when the URL
/// parses and has one.
pub uninterp spec fn host_of(s: Seq<char>) -> Option<Seq<char>>;

/// Relies on `url::Url::parse` and `url::Url::host_str`: both are
/// functions of the URL text alone; the host is surrendered as a plain
/// string, or nothing when the text does not parse or has no host.
#[verifier::external_body]
fn parse_host(candidate: &str) -> (r: Option<String>)
    ensures
        match r {
            Some(h) => host_of(candidate@) == Some(h@),
            None => host_of(candidate@) is None,
        },
{
    match url::Url::parse(candidate) {
        Ok(u) => u.host_str().map(|h| h.to_string()),
        Err(_) => None,
    }
}

/// The host ends with the given suffix.
pub open spec fn spec_ends_with(h: Seq<char>, suffix: Seq<char>) -> bool {
    h.len() >= suffix.len() && h.subrange(
        h.len() - suffix.len(),
        h.len() as int,
    ) =~= suffix
}

fn str_ends_with(h: &str, suffix: &str) -> (r: bool)
    ensures
        r == spec_ends_with(h@, suffix@),
{
    let hn = h.unicode_len();
    let sn = suffix.unicode_len();
    if sn > hn {
        return false;
    }
    let base = hn - sn;
    let mut j: usize = 0;
    while j < sn
        invariant
            hn == h@.len(),
            sn == suffix@.len(),
            base == hn - sn,
            j <= sn,
            forall|k: int| 0 <= k < j ==> h@[base + k] == suffix@[k],
        decreases sn - j,
    {
        if h.get_char(base + j) != suffix.get_char(j) {
            proof {
                assert(h@.subrange(hn - sn, hn as int)[j as int] != suffix@[j as int]);
            }
            return false;
        }
        j = j + 1;
    }
    proof {
        assert(h@.subrange(hn - sn, hn as int) =~= suffix@);
    }
    true
}

/// The platforms the engine accepts source URLs from.
pub open spec fn spec_supported_host(h: Seq<char>) -> bool {
    ||| h =~= "youtube.com"@ || spec_ends_with(h, ".youtube.com"@)
    ||| h =~= "youtu.be"@ || spec_ends_with(h, ".youtu.be"@)
    ||| h =~= "soundcloud.com"@ || spec_ends_with(h, ".soundcloud.com"@)
    ||| h =~= "bandcamp.com"@ || spec_ends_with(h, ".bandcamp.com"@)
    ||| h =~= "vimeo.com"@ || spec_ends_with(h, ".vimeo.com"@)
    ||| h =~= "spotify.com"@ || spec_ends_with(h, ".spotify.com"@)
    ||| h =~= "open.spotify.com"@ || spec_ends_with(h, ".open.spotify.com"@)
}

fn supported_host(h: &str) -> (r: bool)
    ensures
        r == spec_supported_host(h@),
{
    (str_eq(h, "youtube.com") || str_ends_with(h, ".youtube.com")) || (str_eq(h, "youtu.be")
        || str_ends_with(h, ".youtu.be")) || (str_eq(h, "soundcloud.com") || str_ends_with(
        h,
        ".soundcloud.com",
    )) || (str_eq(h, "bandcamp.com") || str_ends_with(h, ".bandcamp.com")) || (str_eq(
        h,
        "vimeo.com",
    ) || str_ends_with(h, ".vimeo.com")) || (str_eq(h, "spotify.com") || str_ends_with(
        h,
        ".spotify.com",
    )) || (str_eq(h, "open.spotify.com") || str_ends_with(h, ".open.spotify.com"))
}

/// A dangerous fragment in a search query, checked on the lowercased
/// text.
pub open spec fn spec_query_dangerous(lq: Seq<char>) -> bool {
    ||| spec_contains_sub(lq, "<script"@)
    ||| spec_contains_sub(lq, "javascript:"@)
    ||| spec_contains_sub(lq, "data:"@)
    ||| spec_contains_sub(lq, "vbscript:"@)
    ||| spec_contains_sub(lq, "onload="@)
    ||| spec_contains_sub(lq, "onerror="@)
    ||| spec_contains_sub(lq, "onclick="@)
    ||| spec_contains_sub(lq, "eval("@)
    ||| spec_contains_sub(lq, "document.cookie"@)
    ||| spec_contains_sub(lq, "window.location"@)
}

/// A character the filename sanitiser trims from the ends: dots and
/// whitespace.
pub open spec fn is_trim_char(c: char) -> bool {
    c == '.' || is_space_char(c)
}

/// The input validator: checks on caller-supplied values at the
/// engine's boundary.
pub struct InputValidator;

impl InputValidator {
    pub fn new() -> (r: InputValidator) {
        InputValidator
    }

    /// Accepts a URL only for a supported platform: the URL must parse,
    /// have a host, and the host must be one of the supported domains or
    /// a subdomain of one.
    pub fn validate_url(&self, candidate: &str) -> (r: Result<(), AppError>)
        ensures
            r is Ok <==> candidate@.len() > 0 && (host_of(candidate@) matches Some(h)
                && spec_supported_host(h)),
    {
        if candidate.unicode_len() == 0 {
            return Err(AppError::Validation(String::from_str("URL cannot be empty")));
        }
        match parse_host(candidate) {
            None => Err(
                AppError::Validation(String::from_str("invalid URL or URL without a host")),
            ),
            Some(h) => {
                if supported_host(h.as_str()) {
                    Ok(())
                } else {
                    Err(AppError::Validation(String::from_str("unsupported platform")))
                }
            },
        }
    }

    /// Rejects empty paths, path traversal (`..` components) and NUL
    /// bytes.
    pub fn validate_file_path(&self, path: &str) -> (r: Result<(), AppError>)
        ensures
            r is Ok <==> path@.len() > 0 && !spec_has_traversal(path@) && !spec_has_nul(path@),
    {
        let n = path.unicode_len();
        if n == 0 {
            return Err(AppError::Validation(String::from_str("file path cannot be empty")));
        }
        let mut i: usize = 0;
        while i < n
            invariant
                n == path@.len(),
                i <= n,
                forall|j: int|
                    0 <= j && j + 2 <= n && j < i ==> !(#[trigger] path@[j] == '.' && path@[j + 1]
                        == '.' && (j == 0 || is_sep_char(path@[j - 1])) && (j + 2 == n
                        || is_sep_char(path@[j + 2]))),
                forall|j: int| 0 <= j < i ==> #[trigger] path@[j] != '\u{0}',
            decreases n - i,
        {
            let c = path.get_char(i);
            if c == '\u{0}' {
                return Err(
                    AppError::Validation(String::from_str("null bytes not allowed in file path")),
                );
            }
            if c == '.' && n >= 2 && i <= n - 2 {
                if path.get_char(i + 1) == '.' {
                    let before_ok = i == 0 || {
                        let b = path.get_char(i - 1);
                        b == '/' || b == '\u{5c}'
                    };
                    let after_ok = i + 2 == n || {
                        let a = path.get_char(i + 2);
                        a == '/' || a == '\u{5c}'
                    };
                    if before_ok && after_ok {
                        return Err(
                            AppError::Validation(String::from_str("path traversal detected")),
                        );
                    }
                }
            }
            i = i + 1;
        }
        Ok(())
    }

    /// Rejects empty or overlong queries (more than 500 bytes) and
    /// queries whose lowercased text contains a dangerous fragment.
    pub fn validate_search_query(&self, query: &str) -> (r: Result<(), AppError>)
        ensures
            r is Ok <==> query@.len() > 0 && query.len() <= 500
                && !spec_query_dangerous(lower_of(query@)),
    {
        if query.is_empty() {
            return Err(AppError::Validation(String::from_str("search query cannot be empty")));
        }
        if query.len() > 500 {
            return Err(
                AppError::Validation(
                    String::from_str("search query too long (max 500 characters)"),
                ),
            );
        }
        let lq = to_lowercase(query);
        let l = lq.as_str();
        if str_contains_sub(l, "<script") || str_contains_sub(l, "javascript:")
            || str_contains_sub(l, "data:") || str_contains_sub(l, "vbscript:")
            || str_contains_sub(l, "onload=") || str_contains_sub(l, "onerror=")
            || str_contains_sub(l, "onclick=") || str_contains_sub(l, "eval(")
            || str_contains_sub(l, "document.cookie") || str_contains_sub(
            l,
            "window.location",
        ) {
            return Err(
                AppError::Validation(
                    String::from_str("potentially malicious content detected"),
                ),
            );
        }
        Ok(())
    }

    /// Accepts an API key only for a known service, with a plausible
    /// length (10 to 1000 bytes) and not made of whitespace alone.
    pub fn validate_api_key(&self, service: &str, api_key: &str) -> (r: Result<(), AppError>)
        ensures
            r is Ok <==> {
                &&& api_key.len() >= 10
                &&& api_key.len() <= 1000
                &&& (lower_of(service@) =~= "spotify"@ || lower_of(service@) =~= "youtube"@
                    || lower_of(service@) =~= "soundcloud"@ || lower_of(service@)
                    =~= "musicbrainz"@)
                &&& !(forall|i: int|
                    0 <= i < api_key@.len() ==> is_space_char(#[trigger] api_key@[i]))
            },
    {
        if api_key.is_empty() {
            return Err(AppError::Validation(String::from_str("API key cannot be empty")));
        }
        if api_key.len() < 10 {
            return Err(
                AppError::Validation(String::from_str("API key too short (minimum 10 characters)")),
            );
        }
        if api_key.len() > 1000 {
            return Err(
                AppError::Validation(String::from_str("API key too long (maximum 1000 characters)")),
            );
        }
        let ls = to_lowercase(service);
        let l = ls.as_str();
        if !(str_eq(l, "spotify") || str_eq(l, "youtube") || str_eq(l, "soundcloud") || str_eq(
            l,
            "musicbrainz",
        )) {
            return Err(AppError::Validation(String::from_str("invalid service")));
        }
        let n = api_key.unicode_len();
        let mut i: usize = 0;
        while i < n
            invariant
                n == api_key@.len(),
                i <= n,
                10 <= api_key.len() <= 1000,
                lower_of(service@) =~= "spotify"@ || lower_of(service@) =~= "youtube"@
                    || lower_of(service@) =~= "soundcloud"@ || lower_of(service@)
                    =~= "musicbrainz"@,
                forall|j: int| 0 <= j < i ==> is_space_char(#[trigger] api_key@[j]),
            decreases n - i,
        {
            if !is_space(api_key.get_char(i)) {
                proof {
                    assert(!(forall|k: int|
                        0 <= k < api_key@.len() ==> is_space_char(#[trigger] api_key@[k])));
                }
                return Ok(());
            }
            i = i + 1;
        }
        Err(AppError::Validation(String::from_str("API key cannot be only whitespace")))
    }

    /// Accepts a probed download directory: it must exist, be a
    /// directory, and not be read-only. The probe itself is the
    /// caller's; this is the decision.
    pub fn validate_download_path(
        &self,
        path: &str,
        path_exists: bool,
        is_dir: bool,
        readonly: bool,
    ) -> (r: Result<(), AppError>)
        ensures
            r is Ok <==> path@.len() > 0 && path_exists && is_dir && !readonly,
    {
        if path.unicode_len() == 0 {
            return Err(AppError::Validation(String::from_str("download path cannot be empty")));
        }
        if !path_exists {
            return Err(AppError::Validation(String::from_str("download path does not exist")));
        }
        if !is_dir {
            return Err(AppError::Validation(String::from_str("download path is not a directory")));
        }
        if readonly {
            return Err(AppError::Validation(String::from_str("download path is read-only")));
        }
        Ok(())
    }
}


/// The string with leading trim characters removed.
pub open spec fn spec_trim_front(s: Seq<char>) -> Seq<char>
    decreases s.len(),
{
    if s.len() > 0 && is_trim_char(s[0]) {
        spec_trim_front(s.drop_first())
    } else {
        s
    }
}

/// The string with trailing trim characters removed.
pub open spec fn spec_trim_back(s: Seq<char>) -> Seq<char>
    decreases s.len(),
{
    if s.len() > 0 && is_trim_char(s.last()) {
        spec_trim_back(s.drop_last())
    } else {
        s
    }
}

/// The string with trim characters removed from both ends.
pub open spec fn spec_trimmed(s: Seq<char>) -> Seq<char> {
    spec_trim_back(spec_trim_front(s))
}

proof fn lemma_trim_front_skip(s: Seq<char>, k: int)
    requires
        0 <= k <= s.len(),
        forall|j: int| 0 <= j < k ==> is_trim_char(#[trigger] s[j]),
        k == s.len() || !is_trim_char(s[k]),
    ensures
        spec_trim_front(s) == s.skip(k),
    decreases k,
{
    if k == 0 {
        assert(s.skip(0) =~= s);
    } else {
        lemma_trim_front_skip(s.drop_first(), k - 1);
        assert(s.drop_first().skip(k - 1) =~= s.skip(k));
    }
}

proof fn lemma_trim_back_take(s: Seq<char>, k: int)
    requires
        0 <= k <= s.len(),
        forall|j: int| k <= j < s.len() ==> is_trim_char(#[trigger] s[j]),
        k == 0 || !is_trim_char(s[k - 1]),
    ensures
        spec_trim_back(s) == s.take(k),
    decreases s.len(),
{
    if k == s.len() {
        if s.len() == 0 {
            assert(s.take(0) =~= s);
        } else {
            assert(s.take(k) =~= s);
        }
    } else {
        lemma_trim_back_take(s.drop_last(), k);
        assert(s.drop_last().take(k) =~= s.take(k));
    }
}

impl InputValidator {
    /// Sanitises a filename: invalid characters become underscores, dots
    /// and whitespace are trimmed from the ends, and a name longer than
    /// 255 characters is cut at 252 and marked with an ellipsis. A name
    /// empty before or after sanitising is refused.
    pub fn sanitize_filename(&self, filename: &str) -> (r: Result<String, AppError>)
        ensures
            match r {
                Ok(out) => {
                    let trimmed = spec_trimmed(
                        filename@.map_values(|c: char| spec_sanitize_char(c)),
                    );
                    &&& filename@.len() > 0
                    &&& trimmed.len() > 0
                    &&& out@ == if trimmed.len() <= 255 {
                        trimmed
                    } else {
                        trimmed.take(252) + "..."@
                    }
                },
                Err(_) => filename@.len() == 0 || spec_trimmed(
                    filename@.map_values(|c: char| spec_sanitize_char(c)),
                ).len() == 0,
            },
    {
        let n = filename.unicode_len();
        if n == 0 {
            return Err(AppError::Validation(String::from_str("filename cannot be empty")));
        }
        let ghost mapped = filename@.map_values(|c: char| spec_sanitize_char(c));
        let mut v: Vec<char> = Vec::new();
        let mut i: usize = 0;
        while i < n
            invariant
                n == filename@.len(),
                i <= n,
                mapped == filename@.map_values(|c: char| spec_sanitize_char(c)),
                v@ =~= mapped.take(i as int),
            decreases n - i,
        {
            let c = filename.get_char(i);
            let m = if c == '<' || c == '>' || c == ':' || c == '"' || c == '/' || c == '\u{5c}'
                || c == '|' || c == '?' || c == '*' {
                '_'
            } else if is_control(c) {
                '_'
            } else {
                c
            };
            proof {
                assert(mapped.take(i as int + 1) =~= mapped.take(i as int).push(
                    mapped[i as int],
                ));
            }
            v.push(m);
            i = i + 1;
        }
        proof {
            assert(mapped.take(n as int) =~= mapped);
        }
        let mut start: usize = 0;
        loop
            invariant_except_break
                n == v@.len(),
                v@ == mapped,
                start <= n,
                forall|j: int| 0 <= j < start ==> is_trim_char(#[trigger] mapped[j]),
            ensures
                n == v@.len(),
                v@ == mapped,
                start <= n,
                forall|j: int| 0 <= j < start ==> is_trim_char(#[trigger] mapped[j]),
                start == n || !is_trim_char(mapped[start as int]),
            decreases n - start,
        {
            if start >= n {
                break;
            }
            let c = v[start];
            if !(c == '.' || is_space(c)) {
                break;
            }
            start = start + 1;
        }
        let mut end: usize = n;
        loop
            invariant_except_break
                n == v@.len(),
                v@ == mapped,
                start <= end <= n,
                start == n || !is_trim_char(mapped[start as int]),
                forall|j: int| end <= j < n ==> is_trim_char(#[trigger] mapped[j]),
            ensures
                n == v@.len(),
                v@ == mapped,
                start <= end <= n,
                start == n || !is_trim_char(mapped[start as int]),
                forall|j: int| end <= j < n ==> is_trim_char(#[trigger] mapped[j]),
                end == start || !is_trim_char(mapped[end - 1]),
            decreases end,
        {
            if end <= start {
                break;
            }
            let c = v[end - 1];
            if !(c == '.' || is_space(c)) {
                break;
            }
            end = end - 1;
        }
        proof {
            lemma_trim_front_skip(mapped, start as int);
            if end == start {
                lemma_trim_back_take(mapped.skip(start as int), 0);
            } else {
                lemma_trim_back_take(mapped.skip(start as int), end - start);
            }
            assert(mapped.skip(start as int).take(end - start) =~= mapped.subrange(
                start as int,
                end as int,
            ));
        }
        if end == start {
            return Err(
                AppError::Validation(
                    String::from_str("filename becomes empty after sanitization"),
                ),
            );
        }
        let keep = if end - start > 255 {
            252
        } else {
            end - start
        };
        let mut out: Vec<char> = Vec::new();
        let mut k: usize = start;
        while k < start + keep
            invariant
                n == v@.len(),
                v@ == mapped,
                start + keep <= n,
                start <= k <= start + keep,
                out@ =~= mapped.subrange(start as int, k as int),
            decreases start + keep - k,
        {
            proof {
                assert(mapped.subrange(start as int, k as int + 1) =~= mapped.subrange(
                    start as int,
                    k as int,
                ).push(mapped[k as int]));
            }
            let c = v[k];
            out.push(c);
            k = k + 1;
        }
        let mut result = string_from_chars(&out);
        if end - start > 255 {
            result.append("...");
            proof {
                assert(result@ == spec_trimmed(mapped).take(252) + "..."@);
            }
        }
        Ok(result)
    }
}

} // verus!
