//! The match scorer: decides whether a provider's candidate track is the
//! track the caller asked for.
//!
//! Titles and artists are lowercased and split into words; the score of a
//! pair of strings is the fraction of the first string's words that also
//! occur in the second. A candidate is accepted when its title clears a
//! 3/5 threshold and its best artist clears 1/2 — exact rational
//! arithmetic in place of floating point.

use vstd::prelude::*;
use crate::text::{lower_of, spec_words, split_words, str_eq, to_lowercase, views_of};

verus! {

/// How many words of `w1` also occur in `w2` (each occurrence of a word
/// in `w1` counts once).
pub open spec fn spec_match_count(w1: Seq<Seq<char>>, w2: Seq<Seq<char>>) -> nat
    decreases w1.len(),
{
    if w1.len() == 0 {
        0
    } else {
        spec_match_count(w1.drop_last(), w2) + if w2.contains(w1.last()) {
            1nat
        } else {
            0nat
        }
    }
}

/// Word-overlap similarity of `w1` against `w2` reaches `num/den`: the
/// number of `w1`-words found in `w2`, over the number of `w1`-words.
/// An empty side scores zero.
pub open spec fn spec_similarity_at_least(
    w1: Seq<Seq<char>>,
    w2: Seq<Seq<char>>,
    num: int,
    den: int,
) -> bool {
    if w1.len() == 0 || w2.len() == 0 {
        num <= 0
    } else {
        spec_match_count(w1, w2) * den >= num * w1.len()
    }
}

/// The acceptance rule: the candidate title's word overlap with the
/// requested title reaches 3/5, and some candidate artist's overlap with
/// the requested artist reaches 1/2.
pub open spec fn spec_is_good_match(
    target_artist: Seq<char>,
    target_title: Seq<char>,
    result_artists: Seq<Seq<char>>,
    result_title: Seq<char>,
) -> bool {
    &&& spec_similarity_at_least(
        spec_words(lower_of(target_title)),
        spec_words(lower_of(result_title)),
        3,
        5,
    )
    &&& exists|k: int|
        0 <= k < result_artists.len() && spec_similarity_at_least(
            spec_words(lower_of(target_artist)),
            spec_words(lower_of(#[trigger] result_artists[k])),
            1,
            2,
        )
}

/// Does this word occur in the list?
fn contains_word(ws: &Vec<String>, w: &String) -> (r: bool)
    ensures
        r == views_of(ws@).contains(w@),
{
    let n = ws.len();
    let mut i: usize = 0;
    while i < n
        invariant
            n == ws@.len(),
            i <= n,
            forall|j: int| 0 <= j < i ==> (#[trigger] ws@[j])@ != w@,
        decreases n - i,
    {
        if str_eq(ws[i].as_str(), w.as_str()) {
            proof {
                assert(views_of(ws@)[i as int] == w@);
            }
            return true;
        }
        i = i + 1;
    }
    proof {
        assert forall|j: int| 0 <= j < n implies #[trigger] views_of(ws@)[j] != w@ by {
            assert(views_of(ws@)[j] == ws@[j]@);
        }
    }
    false
}

/// Counts the words of `w1` that also occur in `w2`.
fn count_matching_words(w1: &Vec<String>, w2: &Vec<String>) -> (n: usize)
    ensures
        n == spec_match_count(
            views_of(w1@),
            views_of(w2@),
        ),
{
    let m = w1.len();
    let mut c: usize = 0;
    let mut i: usize = 0;
    while i < m
        invariant
            m == w1@.len(),
            i <= m,
            c <= i,
            c == spec_match_count(
                views_of(w1@).take(i as int),
                views_of(w2@),
            ),
        decreases m - i,
    {
        proof {
            let v1 = views_of(w1@);
            assert(v1.take(i as int + 1).drop_last() =~= v1.take(i as int));
            assert(v1.take(i as int + 1).last() == v1[i as int]);
            assert(v1[i as int] == w1@[i as int]@);
        }
        if contains_word(w2, &w1[i]) {
            c = c + 1;
        }
        i = i + 1;
    }
    proof {
        assert(views_of(w1@).take(m as int) =~= views_of(w1@));
    }
    c
}

/// Does the word-overlap similarity of `w1` against `w2` reach
/// `num/den`? Exact rational comparison.
fn similarity_at_least(w1: &Vec<String>, w2: &Vec<String>, num: u64, den: u64) -> (r: bool)
    requires
        den > 0,
    ensures
        r == spec_similarity_at_least(
            views_of(w1@),
            views_of(w2@),
            num as int,
            den as int,
        ),
{
    if w1.len() == 0 || w2.len() == 0 {
        return num == 0;
    }
    let c = count_matching_words(w1, w2);
    let len = w1.len();
    proof {
        assert((c as int) * (den as int) <= 0xFFFF_FFFF_FFFF_FFFF * 0xFFFF_FFFF_FFFF_FFFF)
            by (nonlinear_arith)
            requires
                0 <= (c as int) <= 0xFFFF_FFFF_FFFF_FFFF,
                0 <= (den as int) <= 0xFFFF_FFFF_FFFF_FFFF,
        ;
        assert((num as int) * (len as int) <= 0xFFFF_FFFF_FFFF_FFFF * 0xFFFF_FFFF_FFFF_FFFF)
            by (nonlinear_arith)
            requires
                0 <= (num as int) <= 0xFFFF_FFFF_FFFF_FFFF,
                0 <= (len as int) <= 0xFFFF_FFFF_FFFF_FFFF,
        ;
    }
    (c as u128) * (den as u128) >= (num as u128) * (len as u128)
}

/// Accepts or rejects one candidate: lowercased word overlap of titles
/// must reach 3/5 and of the best artist 1/2.
pub fn is_good_match(
    target_artist: &str,
    target_title: &str,
    result_artists: &Vec<String>,
    result_title: &str,
) -> (r: bool)
    ensures
        r == spec_is_good_match(
            target_artist@,
            target_title@,
            views_of(result_artists@),
            result_title@,
        ),
{
    let tt = to_lowercase(target_title);
    let tw = split_words(tt.as_str());
    let rt = to_lowercase(result_title);
    let rw = split_words(rt.as_str());
    if !similarity_at_least(&tw, &rw, 3, 5) {
        return false;
    }
    let ta = to_lowercase(target_artist);
    let taw = split_words(ta.as_str());
    let n = result_artists.len();
    let mut k: usize = 0;
    while k < n
        invariant
            n == result_artists@.len(),
            k <= n,
            views_of(taw@) == spec_words(lower_of(target_artist@)),
            spec_similarity_at_least(
                spec_words(lower_of(target_title@)),
                spec_words(lower_of(result_title@)),
                3,
                5,
            ),
            forall|j: int|
                0 <= j < k ==> !spec_similarity_at_least(
                    spec_words(lower_of(target_artist@)),
                    spec_words(lower_of((#[trigger] result_artists@[j])@)),
                    1,
                    2,
                ),
        decreases n - k,
    {
        let ra = to_lowercase(result_artists[k].as_str());
        let raw = split_words(ra.as_str());
        if similarity_at_least(&taw, &raw, 1, 2) {
            proof {
                assert(views_of(result_artists@)[k as int] == result_artists@[k as int]@);
                assert(spec_similarity_at_least(
                    spec_words(lower_of(target_artist@)),
                    spec_words(lower_of(views_of(result_artists@)[k as int])),
                    1,
                    2,
                ));
                assert(exists|kk: int|
                    0 <= kk < views_of(result_artists@).len() && spec_similarity_at_least(
                        spec_words(lower_of(target_artist@)),
                        spec_words(lower_of(#[trigger] views_of(result_artists@)[kk])),
                        1,
                        2,
                    ));
            }
            return true;
        }
        k = k + 1;
    }
    proof {
        assert forall|j: int| 0 <= j < n implies !spec_similarity_at_least(
            spec_words(lower_of(target_artist@)),
            spec_words(lower_of(#[trigger] views_of(result_artists@)[j])),
            1,
            2,
        ) by {
            assert(views_of(result_artists@)[j] == result_artists@[j]@);
        }
    }
    false
}

} // verus!
