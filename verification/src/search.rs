//! The unified search boundary: requests to the external search
//! collaborator and the interpretation of its answers.

use vstd::prelude::*;
use vstd::string::StringExecFns;
use crate::api::TrackInfo;
use crate::text::str_eq;

verus! {

/// One search request.
#[derive(Debug, Clone)]
pub struct SearchQuery {
    pub query: String,
    pub limit: Option<usize>,
    pub platforms: Option<Vec<String>>,
    pub deep_search: bool,
}

/// The merged answer handed back to the application.
#[derive(Debug, Clone)]
pub struct UnifiedSearchResult {
    pub tracks: Vec<TrackInfo>,
    pub total: usize,
    pub sources_used: Vec<String>,
    pub deduplicated: bool,
}

/// The search front: it decides what to ask the external collaborator
/// and how to read its answer.
pub struct SearchManager;

/// The default result limit when the caller names none.
pub const DEFAULT_SEARCH_LIMIT: usize = 3;

impl SearchManager {
    pub fn new() -> (r: SearchManager) {
        SearchManager
    }

    /// The platforms searched by default, in order.
    pub fn get_available_sources(&self) -> (r: Vec<String>)
        ensures
            r@.len() == 4,
            r@[0]@ == "youtube"@,
            r@[1]@ == "soundcloud"@,
            r@[2]@ == "bandcamp"@,
            r@[3]@ == "vimeo"@,
    {
        let mut out: Vec<String> = Vec::new();
        out.push(String::from_str("youtube"));
        out.push(String::from_str("soundcloud"));
        out.push(String::from_str("bandcamp"));
        out.push(String::from_str("vimeo"));
        out
    }

    /// The platform list actually sent: the caller's, unless it named
    /// none, in which case every default platform is asked.
    pub fn effective_platforms(&self, query: &SearchQuery) -> (r: Vec<String>)
        ensures
            match query.platforms {
                Some(ps) => if ps@.len() > 0 {
                    r@ == ps@
                } else {
                    r@.len() == 4
                },
                None => r@.len() == 4,
            },
    {
        match &query.platforms {
            Some(ps) => {
                if ps.len() > 0 {
                    let n = ps.len();
                    let mut out: Vec<String> = Vec::new();
                    let mut i: usize = 0;
                    while i < n
                        invariant
                            n == ps@.len(),
                            i <= n,
                            out@ =~= ps@.take(i as int),
                        decreases n - i,
                    {
                        proof {
                            assert(ps@.take(i as int + 1) =~= ps@.take(i as int).push(
                                ps@[i as int],
                            ));
                        }
                        let p = ps[i].clone();
                        out.push(p);
                        i = i + 1;
                    }
                    proof {
                        assert(ps@.take(n as int) =~= ps@);
                    }
                    out
                } else {
                    self.get_available_sources()
                }
            },
            None => self.get_available_sources(),
        }
    }

    /// The result limit actually sent.
    pub fn effective_limit(&self, query: &SearchQuery) -> (r: usize)
        ensures
            r == (match query.limit {
                Some(l) => l,
                None => DEFAULT_SEARCH_LIMIT,
            }),
    {
        match query.limit {
            Some(l) => l,
            None => DEFAULT_SEARCH_LIMIT,
        }
    }

    /// Reads the collaborator's answer: the parsed tracks, the reported
    /// total, and the search type, which marks a deep search as
    /// deduplicated.
    pub fn interpret_search_response(
        &self,
        tracks: Vec<TrackInfo>,
        total: usize,
        search_type: &str,
    ) -> (r: UnifiedSearchResult)
        ensures
            r.tracks == tracks,
            r.total == total,
            r.sources_used@.len() == 1,
            r.sources_used@[0]@ == search_type@,
            r.deduplicated == (search_type@ =~= "deep"@),
    {
        let dedup = str_eq(search_type, "deep");
        let mut sources: Vec<String> = Vec::new();
        let mut st = String::new();
        st.append(search_type);
        sources.push(st);
        UnifiedSearchResult { tracks, total, sources_used: sources, deduplicated: dedup }
    }
}

} // verus!
