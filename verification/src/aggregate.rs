//! The metadata aggregator's pure decisions: per-provider candidate
//! selection, lyrics preference, cover-art image choice, and the query
//! phrasings tried in order of specificity.

use vstd::prelude::*;
use vstd::string::StringExecFns;
use crate::scorer::{is_good_match, spec_is_good_match};
use crate::text::{spec_contains_sub, str_contains_sub, str_eq, views_of};

verus! {

/// One candidate track as a provider returned it.
#[derive(Debug, Clone)]
pub struct TrackCandidate {
    pub title: String,
    pub artists: Vec<String>,
}

/// Per-provider candidate selection: the first candidate the match
/// scorer accepts, scanning in the provider's own ranking order.
pub fn pick_candidate(
    target_artist: &str,
    target_title: &str,
    candidates: &Vec<TrackCandidate>,
) -> (r: Option<usize>)
    ensures
        match r {
            Some(i) => i < candidates@.len() && spec_is_good_match(
                target_artist@,
                target_title@,
                views_of(candidates@[i as int].artists@),
                candidates@[i as int].title@,
            ) && (forall|j: int|
                0 <= j < i ==> !spec_is_good_match(
                    target_artist@,
                    target_title@,
                    views_of((#[trigger] candidates@[j]).artists@),
                    candidates@[j].title@,
                )),
            None => forall|j: int|
                0 <= j < candidates@.len() ==> !spec_is_good_match(
                    target_artist@,
                    target_title@,
                    views_of((#[trigger] candidates@[j]).artists@),
                    candidates@[j].title@,
                ),
        },
{
    let n = candidates.len();
    let mut i: usize = 0;
    while i < n
        invariant
            n == candidates@.len(),
            i <= n,
            forall|j: int|
                0 <= j < i ==> !spec_is_good_match(
                    target_artist@,
                    target_title@,
                    views_of((#[trigger] candidates@[j]).artists@),
                    candidates@[j].title@,
                ),
        decreases n - i,
    {
        if is_good_match(
            target_artist,
            target_title,
            &candidates[i].artists,
            candidates[i].title.as_str(),
        ) {
            return Some(i);
        }
        i = i + 1;
    }
    None
}

/// The lyrics providers in fixed preference order.
#[derive(Debug, Clone, Copy, PartialEq, Eq, Structural)]
pub enum LyricsSource {
    LrcLib,
    LyricsOvh,
    Musixmatch,
    Genius,
}

/// Whether one provider's raw answer counts as usable lyrics: it must
/// be non-empty, and two providers mark misses and licence boilerplate
/// inside an otherwise well-formed answer.
pub open spec fn spec_accept_lyrics(source: LyricsSource, text: Seq<char>) -> bool {
    &&& text.len() > 0
    &&& (source == LyricsSource::LyricsOvh ==> !spec_contains_sub(
        text,
        "Sorry, we don't have lyrics for this song yet."@,
    ))
    &&& (source == LyricsSource::Musixmatch ==> !spec_contains_sub(
        text,
        "******* This Lyrics is NOT for Commercial use *******"@,
    ))
}

/// Runtime acceptance check for one provider's answer.
pub fn accept_lyrics(source: LyricsSource, text: &str) -> (r: bool)
    ensures
        r == spec_accept_lyrics(source, text@),
{
    if text.is_empty() {
        return false;
    }
    match source {
        LyricsSource::LyricsOvh => !str_contains_sub(
            text,
            "Sorry, we don't have lyrics for this song yet.",
        ),
        LyricsSource::Musixmatch => !str_contains_sub(
            text,
            "******* This Lyrics is NOT for Commercial use *******",
        ),
        LyricsSource::LrcLib => true,
        LyricsSource::Genius => true,
    }
}

/// Lyrics come from exactly one provider: all providers raced, and the
/// first answer in fixed preference order wins. `results` is in that
/// preference order; a provider that failed or found nothing is `None`.
pub fn first_lyrics(results: Vec<Option<String>>) -> (r: Option<String>)
    ensures
        match r {
            Some(text) => exists|i: int|
                0 <= i < results@.len() && ((#[trigger] results@[i]) matches Some(t) && text == t)
                    && (forall|j: int| 0 <= j < i ==> (#[trigger] results@[j]) is None),
            None => forall|j: int| 0 <= j < results@.len() ==> (#[trigger] results@[j]) is None,
        },
{
    let n = results.len();
    let mut i: usize = 0;
    let mut out: Vec<Option<String>> = results;
    // Scan in preference order; take the first present answer.
    while i < n
        invariant
            n == out@.len(),
            out@ == results@,
            i <= n,
            forall|j: int| 0 <= j < i ==> (#[trigger] out@[j]) is None,
        decreases n - i,
    {
        let hit = matches!(&out[i], Option::Some(_));
        if hit {
            let ghost slot = out@[i as int];
            let taken = out.remove(i);
            proof {
                assert(taken == slot);
            }
            match taken {
                Option::Some(t) => {
                    proof {
                        assert(results@[i as int] matches Some(x) && x == t);
                    }
                    return Some(t);
                },
                Option::None => {
                    proof {
                        assert(false);
                    }
                    return None;
                },
            }
        }
        i = i + 1;
    }
    None
}

/// Picks the cover image to embed: the widest image offered, and among
/// equally wide ones the one listed last (an absent width reads as
/// zero).
pub fn pick_largest_image(widths: &Vec<Option<u64>>) -> (r: Option<usize>)
    ensures
        match r {
            Some(i) => i < widths@.len() && (forall|j: int|
                0 <= j < widths@.len() ==> spec_width(#[trigger] widths@[j]) < spec_width(
                    widths@[i as int],
                ) || (spec_width(widths@[j]) == spec_width(widths@[i as int]) && j <= i)),
            None => widths@.len() == 0,
        },
{
    let n = widths.len();
    if n == 0 {
        return None;
    }
    let mut best: usize = 0;
    let mut i: usize = 1;
    while i < n
        invariant
            n == widths@.len(),
            best < i <= n,
            forall|j: int|
                0 <= j < i ==> spec_width(#[trigger] widths@[j]) < spec_width(
                    widths@[best as int],
                ) || (spec_width(widths@[j]) == spec_width(widths@[best as int]) && j
                    <= best),
        decreases n - i,
    {
        let wi = match widths[i] {
            Some(w) => w,
            None => 0,
        };
        let wb = match widths[best] {
            Some(w) => w,
            None => 0,
        };
        if wi >= wb {
            best = i;
        }
        i = i + 1;
    }
    Some(best)
}

/// The width an image ranks under.
pub open spec fn spec_width(w: Option<u64>) -> u64 {
    match w {
        Some(x) => x,
        None => 0,
    }
}

/// What `urlencoding::encode` returns: percent-encoding, a function of
/// the text alone.
pub uninterp spec fn urlencoded_of(s: Seq<char>) -> Seq<char>;

/// Relies on `urlencoding::encode`: the percent-encoded form of the
/// text, and an empty text stays empty.
#[verifier::external_body]
pub(crate) fn url_encode(s: &str) -> (r: String)
    ensures
        r@ == urlencoded_of(s@),
        s@.len() == 0 ==> r@.len() == 0,
{
    urlencoding::encode(s).into_owned()
}

/// The catalog-provider track query: field-qualified artist and title,
/// with the album qualifier when one is known.
pub fn build_track_query(artist: &str, title: &str, album: Option<&str>) -> (r: String)
    ensures
        match album {
            Some(a) => r@ == "artist:\""@ + artist@ + "\" track:\""@ + title@ + "\" album:\""@
                + a@ + "\""@,
            None => r@ == "artist:\""@ + artist@ + "\" track:\""@ + title@ + "\""@,
        },
{
    let mut q = String::from_str("artist:\"");
    q.append(artist);
    q.append("\" track:\"");
    q.append(title);
    match album {
        Some(a) => {
            q.append("\" album:\"");
            q.append(a);
            q.append("\"");
        },
        None => {
            q.append("\"");
        },
    }
    q
}

/// The community-database recording query, with the release qualifier
/// when the album is known.
pub fn build_recording_query(artist: &str, title: &str, album: Option<&str>) -> (r: String)
    ensures
        match album {
            Some(a) => r@ == "artist:\""@ + artist@ + "\" AND recording:\""@ + title@
                + "\" AND release:\""@ + a@ + "\""@,
            None => r@ == "artist:\""@ + artist@ + "\" AND recording:\""@ + title@ + "\""@,
        },
{
    let mut q = String::from_str("artist:\"");
    q.append(artist);
    q.append("\" AND recording:\"");
    q.append(title);
    match album {
        Some(a) => {
            q.append("\" AND release:\"");
            q.append(a);
            q.append("\"");
        },
        None => {
            q.append("\"");
        },
    }
    q
}

/// The storefront-provider term: the loose concatenation of artist and
/// title.
pub fn build_term_query(artist: &str, title: &str) -> (r: String)
    ensures
        r@ == artist@ + " "@ + title@,
{
    let mut q = String::new();
    q.append(artist);
    q.append(" ");
    q.append(title);
    q
}

/// The cover-art query phrasings, in order of specificity: the
/// field-qualified form (with the album when known), the quoted exact
/// form, the artist-qualified loose form, and the bare concatenation.
/// They are tried in this order until one clears the scorer's
/// threshold.
pub fn build_cover_queries(artist: &str, title: &str, album: Option<&str>) -> (r: Vec<String>)
    ensures
        r@.len() == 4,
        r@[0]@ == (match album {
            Some(a) => "artist:\""@ + artist@ + "\" track:\""@ + title@ + "\" album:\""@ + a@
                + "\""@,
            None => "artist:\""@ + artist@ + "\" track:\""@ + title@ + "\""@,
        }),
        r@[1]@ == "\""@ + artist@ + "\" \""@ + title@ + "\""@,
        r@[2]@ == "artist:\""@ + artist@ + "\" "@ + title@,
        r@[3]@ == artist@ + " "@ + title@,
{
    let mut out: Vec<String> = Vec::new();
    out.push(build_track_query(artist, title, album));
    let mut q2 = String::from_str("\"");
    q2.append(artist);
    q2.append("\" \"");
    q2.append(title);
    q2.append("\"");
    out.push(q2);
    let mut q3 = String::from_str("artist:\"");
    q3.append(artist);
    q3.append("\" ");
    q3.append(title);
    out.push(q3);
    out.push(build_term_query(artist, title));
    out
}

/// A search URL from a base, the encoded query, and a trailing suffix
/// of fixed parameters.
pub fn build_search_url(base: &str, query: &str, suffix: &str) -> (r: String)
    ensures
        r@ == base@ + urlencoded_of(query@) + suffix@,
{
    let enc = url_encode(query);
    let mut u = String::new();
    u.append(base);
    u.append(enc.as_str());
    u.append(suffix);
    u
}


/// Credentials held by a provider front, keyed by service name.
pub struct ProviderKeys {
    pub entries: Vec<(String, String)>,
}

impl ProviderKeys {
    /// Unique service names.
    pub open spec fn wf(self) -> bool {
        forall|i: int, j: int|
            0 <= i < j < self.entries@.len() ==> (#[trigger] self.entries@[i]).0@ != (
            #[trigger] self.entries@[j]).0@
    }

    pub open spec fn spec_has(self, service: Seq<char>) -> bool {
        exists|i: int| 0 <= i < self.entries@.len() && (#[trigger] self.entries@[i]).0@ == service
    }

    pub fn new() -> (r: ProviderKeys)
        ensures
            r.wf(),
            r.entries@.len() == 0,
    {
        ProviderKeys { entries: Vec::new() }
    }

    fn find(&self, service: &str) -> (r: Option<usize>)
        requires
            self.wf(),
        ensures
            match r {
                Some(i) => i < self.entries@.len() && self.entries@[i as int].0@ == service@,
                None => forall|i: int|
                    0 <= i < self.entries@.len() ==> (#[trigger] self.entries@[i]).0@
                        != service@,
            },
    {
        let n = self.entries.len();
        let mut i: usize = 0;
        while i < n
            invariant
                n == self.entries@.len(),
                i <= n,
                forall|j: int| 0 <= j < i ==> (#[trigger] self.entries@[j]).0@ != service@,
            decreases n - i,
        {
            if str_eq(self.entries[i].0.as_str(), service) {
                return Some(i);
            }
            i = i + 1;
        }
        None
    }

    /// Stores one service's key: the table afterwards is the table
    /// before with the entry under `service` replaced (or appended);
    /// every other service's entry is untouched.
    pub fn set_api_key(&mut self, service: String, key: String)
        requires
            old(self).wf(),
        ensures
            final(self).wf(),
            final(self).spec_has(service@),
            (exists|i: int|
                0 <= i < old(self).entries@.len() && (#[trigger] old(self).entries@[i]).0@
                    == service@ && final(self).entries@ =~= old(self).entries@.update(
                    i,
                    (service, key),
                )) || ((forall|i: int|
                0 <= i < old(self).entries@.len() ==> (#[trigger] old(self).entries@[i]).0@
                    != service@) && final(self).entries@ =~= old(self).entries@.push(
                (service, key),
            )),
    {
        match self.find(service.as_str()) {
            Some(i) => {
                self.entries.set(i, (service, key));
                proof {
                    assert((self.entries@[i as int]).0@ == service@);
                }
            },
            None => {
                self.entries.push((service, key));
                proof {
                    assert((self.entries@[self.entries@.len() - 1]).0@ == service@);
                }
            },
        }
    }

    /// The stored key for one service.
    pub fn get_api_key(&self, service: &str) -> (r: Option<String>)
        requires
            self.wf(),
        ensures
            match r {
                Some(k) => exists|i: int|
                    0 <= i < self.entries@.len() && (#[trigger] self.entries@[i]).0@ == service@
                        && k@ == self.entries@[i].1@,
                None => !self.spec_has(service@),
            },
    {
        match self.find(service) {
            Some(i) => Some(self.entries[i].1.clone()),
            None => None,
        }
    }
}

/// The metadata-provider front: the credentials it presents and the
/// proxy it routes through. The network work lives with the caller;
/// the selection and merge rules live in this module and its
/// neighbours.
pub struct MetadataProvider {
    pub api_keys: ProviderKeys,
    pub proxy: Option<String>,
}

impl MetadataProvider {
    pub fn new() -> (r: MetadataProvider)
        ensures
            r.api_keys.wf(),
            r.api_keys.entries@.len() == 0,
            r.proxy is None,
    {
        MetadataProvider { api_keys: ProviderKeys::new(), proxy: None }
    }

    pub fn new_with_proxy(proxy: Option<String>) -> (r: MetadataProvider)
        ensures
            r.api_keys.wf(),
            r.api_keys.entries@.len() == 0,
            r.proxy == proxy,
    {
        MetadataProvider { api_keys: ProviderKeys::new(), proxy }
    }

    pub fn set_api_key(&mut self, service: String, key: String)
        requires
            old(self).api_keys.wf(),
        ensures
            final(self).api_keys.wf(),
            final(self).api_keys.spec_has(service@),
            final(self).proxy == old(self).proxy,
            (exists|i: int|
                0 <= i < old(self).api_keys.entries@.len() && (#[trigger] old(self).api_keys.entries@[i]).0@
                    == service@ && final(self).api_keys.entries@ =~= old(self).api_keys.entries@.update(
                    i,
                    (service, key),
                )) || ((forall|i: int|
                0 <= i < old(self).api_keys.entries@.len() ==> (#[trigger] old(self).api_keys.entries@[i]).0@
                    != service@) && final(self).api_keys.entries@ =~= old(self).api_keys.entries@.push(
                (service, key),
            )),
    {
        self.api_keys.set_api_key(service, key);
    }
}

/// The lyrics-provider front.
pub struct LyricsProvider {
    pub api_keys: ProviderKeys,
    pub proxy: Option<String>,
}

impl LyricsProvider {
    pub fn new() -> (r: LyricsProvider)
        ensures
            r.api_keys.wf(),
            r.api_keys.entries@.len() == 0,
            r.proxy is None,
    {
        LyricsProvider { api_keys: ProviderKeys::new(), proxy: None }
    }

    pub fn new_with_proxy(proxy: Option<String>) -> (r: LyricsProvider)
        ensures
            r.api_keys.wf(),
            r.api_keys.entries@.len() == 0,
            r.proxy == proxy,
    {
        LyricsProvider { api_keys: ProviderKeys::new(), proxy }
    }

    pub fn set_api_key(&mut self, service: String, key: String)
        requires
            old(self).api_keys.wf(),
        ensures
            final(self).api_keys.wf(),
            final(self).api_keys.spec_has(service@),
            final(self).proxy == old(self).proxy,
            (exists|i: int|
                0 <= i < old(self).api_keys.entries@.len() && (#[trigger] old(self).api_keys.entries@[i]).0@
                    == service@ && final(self).api_keys.entries@ =~= old(self).api_keys.entries@.update(
                    i,
                    (service, key),
                )) || ((forall|i: int|
                0 <= i < old(self).api_keys.entries@.len() ==> (#[trigger] old(self).api_keys.entries@[i]).0@
                    != service@) && final(self).api_keys.entries@ =~= old(self).api_keys.entries@.push(
                (service, key),
            )),
    {
        self.api_keys.set_api_key(service, key);
    }
}

} // verus!
