//! Verified text primitives: character classes, string comparison,
//! substring search, word splitting, and filename sanitising.

use vstd::prelude::*;
use vstd::string::StrSliceExecFns;
use vstd::string::StringExecFns;

verus! {

/// The Unicode `White_Space` characters: what `split_whitespace` and
/// `trim` split on.
pub open spec fn is_space_char(c: char) -> bool {
    ||| c == ' '
    ||| ('\u{9}' <= c && c <= '\u{d}')
    ||| c == '\u{85}'
    ||| c == '\u{a0}'
    ||| c == '\u{1680}'
    ||| ('\u{2000}' <= c && c <= '\u{200a}')
    ||| c == '\u{2028}'
    ||| c == '\u{2029}'
    ||| c == '\u{202f}'
    ||| c == '\u{205f}'
    ||| c == '\u{3000}'
}

/// Runtime check for `is_space_char`.
pub fn is_space(c: char) -> (r: bool)
    ensures
        r == is_space_char(c),
{
    c == ' ' || ('\u{9}' <= c && c <= '\u{d}') || c == '\u{85}' || c == '\u{a0}' || c == '\u{1680}'
        || ('\u{2000}' <= c && c <= '\u{200a}') || c == '\u{2028}' || c == '\u{2029}'
        || c == '\u{202f}' || c == '\u{205f}' || c == '\u{3000}'
}

/// The Unicode control characters (category Cc).
pub open spec fn is_control_char(c: char) -> bool {
    c < '\u{20}' || ('\u{7f}' <= c && c <= '\u{9f}')
}

/// Runtime check for `is_control_char`.
pub fn is_control(c: char) -> (r: bool)
    ensures
        r == is_control_char(c),
{
    c < '\u{20}' || ('\u{7f}' <= c && c <= '\u{9f}')
}

/// Character-wise string equality.
pub fn str_eq(a: &str, b: &str) -> (r: bool)
    ensures
        r == (a@ == b@),
{
    let na = a.unicode_len();
    let nb = b.unicode_len();
    if na != nb {
        return false;
    }
    let mut i: usize = 0;
    while i < na
        invariant
            na == a@.len(),
            na == b@.len(),
            i <= na,
            forall|j: int| 0 <= j < i ==> a@[j] == b@[j],
        decreases na - i,
    {
        if a.get_char(i) != b.get_char(i) {
            return false;
        }
        i = i + 1;
    }
    proof {
        assert(a@ =~= b@);
    }
    true
}

/// The needle occurs somewhere in the haystack.
pub open spec fn spec_contains_sub(h: Seq<char>, n: Seq<char>) -> bool {
    exists|i: int| 0 <= i <= h.len() - n.len() && #[trigger] h.subrange(i, i + n.len()) =~= n
}

/// Substring search.
pub fn str_contains_sub(h: &str, n: &str) -> (r: bool)
    ensures
        r == spec_contains_sub(h@, n@),
{
    let hn = h.unicode_len();
    let nn = n.unicode_len();
    if nn > hn {
        proof {
            assert(!spec_contains_sub(h@, n@));
        }
        return false;
    }
    if nn == 0 {
        proof {
            assert(h@.subrange(0, 0 + n@.len() as int) =~= n@);
        }
        return true;
    }
    let mut i: usize = 0;
    while i <= hn - nn
        invariant
            hn == h@.len(),
            nn == n@.len(),
            1 <= nn <= hn,
            i <= hn - nn + 1,
            forall|k: int| 0 <= k < i ==> !(#[trigger] h@.subrange(k, k + nn as int) =~= n@),
        decreases hn + 1 - i,
    {
        let mut j: usize = 0;
        let mut matches_here = true;
        while j < nn
            invariant_except_break
                hn == h@.len(),
                nn == n@.len(),
                i + nn <= hn,
                j <= nn,
                matches_here,
                forall|k: int| 0 <= k < j ==> h@[i + k] == n@[k],
            ensures
                matches_here ==> forall|k: int| 0 <= k < nn ==> h@[i + k] == n@[k],
                !matches_here ==> !(h@.subrange(i as int, i + nn as int) =~= n@),
            decreases nn - j,
        {
            if h.get_char(i + j) != n.get_char(j) {
                matches_here = false;
                proof {
                    assert(h@.subrange(i as int, i + nn as int)[j as int] != n@[j as int]);
                    assert(!(h@.subrange(i as int, i + nn as int) =~= n@));
                }
                break;
            }
            j = j + 1;
        }
        if matches_here {
            proof {
                assert forall|k: int| 0 <= k < nn implies h@.subrange(
                    i as int,
                    i + nn as int,
                )[k] == n@[k] by {
                    assert(h@[i + k] == n@[k]);
                }
                assert(h@.subrange(i as int, i + nn as int) =~= n@);
            }
            return true;
        }
        i = i + 1;
    }
    proof {
        assert forall|k: int| 0 <= k <= hn - nn implies !(#[trigger] h@.subrange(
            k,
            k + nn as int,
        ) =~= n@) by {
            assert(!(h@.subrange(k, k + nn as int) =~= n@));
        }
    }
    false
}

/// The length of the leading run of non-whitespace characters.
pub open spec fn spec_word_len(s: Seq<char>) -> nat
    decreases s.len(),
{
    if s.len() == 0 || is_space_char(s[0]) {
        0
    } else {
        1 + spec_word_len(s.drop_first())
    }
}

/// The leading word is never longer than the string.
pub proof fn lemma_word_len_le(s: Seq<char>)
    ensures
        spec_word_len(s) <= s.len(),
    decreases s.len(),
{
    if s.len() > 0 && !is_space_char(s[0]) {
        lemma_word_len_le(s.drop_first());
    }
}

/// The words of a string: the maximal runs of non-whitespace characters,
/// in order. This is what `split_whitespace` yields.
pub open spec fn spec_words(s: Seq<char>) -> Seq<Seq<char>>
    decreases s.len(),
    via spec_words_decreases
{
    if s.len() == 0 {
        Seq::empty()
    } else if is_space_char(s[0]) {
        spec_words(s.drop_first())
    } else {
        seq![s.take(spec_word_len(s) as int)] + spec_words(s.skip(spec_word_len(s) as int))
    }
}

#[via_fn]
proof fn spec_words_decreases(s: Seq<char>) {
    lemma_word_len_le(s);
}

/// The character sequences of a list of strings.
pub open spec fn views_of(ws: Seq<String>) -> Seq<Seq<char>> {
    ws.map_values(|w: String| w@)
}

/// Relies on `str::split_whitespace`: the pieces are exactly the maximal
/// runs of non-whitespace characters, in order, whitespace being the
/// Unicode `White_Space` property.
#[verifier::external_body]
pub(crate) fn split_words(s: &str) -> (r: Vec<String>)
    ensures
        views_of(r@) == spec_words(s@),
{
    s.split_whitespace().map(|w| w.to_string()).collect()
}

/// What `str::to_lowercase` returns: Unicode lowercasing, a function of
/// the characters alone.
pub uninterp spec fn lower_of(s: Seq<char>) -> Seq<char>;

/// Relies on `str::to_lowercase`: the result depends on the input
/// characters alone, and an empty string stays empty.
#[verifier::external_body]
pub(crate) fn to_lowercase(s: &str) -> (r: String)
    ensures
        r@ == lower_of(s@),
        s@.len() == 0 ==> r@.len() == 0,
{
    s.to_lowercase()
}

/// Relies on `String::from_iter` over `char`: collecting characters
/// yields exactly that string.
#[verifier::external_body]
pub(crate) fn string_from_chars(v: &Vec<char>) -> (r: String)
    ensures
        r@ == v@,
{
    v.iter().collect()
}

/// How one character is sanitised for a filename: path separators, shell
/// metacharacters and control characters become underscores.
pub open spec fn spec_sanitize_char(c: char) -> char {
    if c == '<' || c == '>' || c == ':' || c == '"' || c == '/' || c == '\u{5c}' || c == '|'
        || c == '?' || c == '*' {
        '_'
    } else if is_control_char(c) {
        '_'
    } else {
        c
    }
}

/// Sanitises a filename by replacing invalid characters with
/// underscores, character for character.
pub fn sanitize_filename(filename: &str) -> (r: String)
    ensures
        r@ == filename@.map_values(|c: char| spec_sanitize_char(c)),
{
    let n = filename.unicode_len();
    let mut out: Vec<char> = Vec::new();
    let mut i: usize = 0;
    while i < n
        invariant
            n == filename@.len(),
            i <= n,
            out@ =~= filename@.take(i as int).map_values(|c: char| spec_sanitize_char(c)),
        decreases n - i,
    {
        let c = filename.get_char(i);
        let mapped = if c == '<' || c == '>' || c == ':' || c == '"' || c == '/' || c == '\u{5c}'
            || c == '|' || c == '?' || c == '*' {
            '_'
        } else if is_control(c) {
            '_'
        } else {
            c
        };
        proof {
            assert(filename@.take(i as int + 1).map_values(|c: char| spec_sanitize_char(c))
                =~= filename@.take(i as int).map_values(|c: char| spec_sanitize_char(c)).push(
                spec_sanitize_char(filename@[i as int]),
            ));
        }
        out.push(mapped);
        i = i + 1;
    }
    proof {
        assert(filename@.take(n as int) =~= filename@);
    }
    string_from_chars(&out)
}

/// Builds the canonical "Artist - Title" filename from sanitised parts.
pub fn sanitize_track_filename(artist: &str, title: &str) -> (r: String)
    ensures
        r@ == artist@.map_values(|c: char| spec_sanitize_char(c)) + " - "@ + title@.map_values(
            |c: char| spec_sanitize_char(c),
        ),
{
    let mut out = sanitize_filename(artist);
    out.append(" - ");
    let t = sanitize_filename(title);
    out.append(t.as_str());
    out
}


/// The decimal digit character for one value below ten.
pub open spec fn spec_digit_char(d: nat) -> char {
    ((48 + d) as u8) as char
}

/// The decimal representation of a number, most significant digit
/// first.
pub open spec fn spec_u64_dec(n: nat) -> Seq<char>
    decreases n,
{
    if n < 10 {
        seq![spec_digit_char(n)]
    } else {
        spec_u64_dec(n / 10).push(spec_digit_char(n % 10))
    }
}

/// Renders a number in decimal.
pub fn u64_to_string(n: u64) -> (r: String)
    ensures
        r@ == spec_u64_dec(n as nat),
{
    let mut digits: Vec<char> = Vec::new();
    let mut m = n;
    if m == 0 {
        digits.push('0');
        proof {
            assert(digits@ =~= spec_u64_dec(0));
        }
        return string_from_chars(&digits);
    }
    while m > 0
        invariant
            spec_u64_dec(n as nat) =~= (if m > 0 {
                spec_u64_dec(m as nat) + digits@.reverse()
            } else {
                digits@.reverse()
            }),
        decreases m,
    {
        let d = (m % 10) as u8;
        let c = (48 + d) as char;
        proof {
            assert(c == spec_digit_char((m % 10) as nat));
            if m >= 10 {
                assert(spec_u64_dec(m as nat) == spec_u64_dec((m / 10) as nat).push(
                    spec_digit_char((m % 10) as nat),
                ));
                assert(spec_u64_dec((m / 10) as nat).push(c) + digits@.reverse()
                    =~= spec_u64_dec((m / 10) as nat) + digits@.push(c).reverse());
            } else {
                assert(spec_u64_dec(m as nat) =~= seq![c]);
                assert(seq![c] + digits@.reverse() =~= digits@.push(c).reverse());
            }
        }
        digits.push(c);
        m = m / 10;
    }
    let mut out: Vec<char> = Vec::new();
    let k = digits.len();
    let mut i: usize = 0;
    while i < k
        invariant
            k == digits@.len(),
            i <= k,
            out@ =~= digits@.reverse().take(i as int),
        decreases k - i,
    {
        proof {
            assert(digits@.reverse().take(i as int + 1) =~= digits@.reverse().take(
                i as int,
            ).push(digits@.reverse()[i as int]));
            assert(digits@.reverse()[i as int] == digits@[k - 1 - i as int]);
        }
        let c = digits[k - 1 - i];
        out.push(c);
        i = i + 1;
    }
    proof {
        assert(digits@.reverse().take(k as int) =~= digits@.reverse());
    }
    string_from_chars(&out)
}

/// A decimal digit.
pub open spec fn is_digit_char(c: char) -> bool {
    '0' <= c && c <= '9'
}

/// The numeric value of a digit sequence, most significant first.
pub open spec fn spec_dec_value(s: Seq<char>) -> int
    decreases s.len(),
{
    if s.len() == 0 {
        0
    } else {
        spec_dec_value(s.drop_last()) * 10 + (s.last() as int - 48)
    }
}

/// Parses a decimal number: every character must be a digit, the string
/// non-empty, and the value must fit. Anything else yields nothing.
pub fn parse_u64(s: &str) -> (r: Option<u64>)
    ensures
        match r {
            Some(v) => s@.len() > 0 && (forall|i: int|
                0 <= i < s@.len() ==> is_digit_char(#[trigger] s@[i])) && v == spec_dec_value(s@),
            None => s@.len() == 0 || (exists|i: int|
                0 <= i < s@.len() && !is_digit_char(#[trigger] s@[i])) || spec_dec_value(s@)
                > u64::MAX,
        },
{
    let n = s.unicode_len();
    if n == 0 {
        return None;
    }
    let mut acc: u64 = 0;
    let mut i: usize = 0;
    while i < n
        invariant
            n == s@.len(),
            i <= n,
            forall|j: int| 0 <= j < i ==> is_digit_char(#[trigger] s@[j]),
            acc == spec_dec_value(s@.take(i as int)),
        decreases n - i,
    {
        let c = s.get_char(i);
        if !(c >= '0' && c <= '9') {
            return None;
        }
        let d = (c as u32) as u64 - 48;
        proof {
            assert(s@.take(i as int + 1).drop_last() =~= s@.take(i as int));
            assert(s@.take(i as int + 1).last() == s@[i as int]);
        }
        if acc > (u64::MAX - d) / 10 {
            proof {
                assert(spec_dec_value(s@.take(i as int + 1)) == acc * 10 + d);
                assert(acc * 10 + d > u64::MAX) by (nonlinear_arith)
                    requires
                        acc > (u64::MAX - d) / 10,
                        0 <= d <= 9,
                ;
                if forall|j: int| 0 <= j < s@.len() ==> is_digit_char(#[trigger] s@[j]) {
                    lemma_dec_value_monotonic(s@, i as int);
                }
            }
            return None;
        }
        acc = acc * 10 + d;
        i = i + 1;
    }
    proof {
        assert(s@.take(n as int) =~= s@);
    }
    Some(acc)
}

/// An all-digit string has a non-negative value.
proof fn lemma_dec_value_nonneg(s: Seq<char>)
    requires
        forall|j: int| 0 <= j < s.len() ==> is_digit_char(#[trigger] s[j]),
    ensures
        spec_dec_value(s) >= 0,
    decreases s.len(),
{
    if s.len() > 0 {
        lemma_dec_value_nonneg(s.drop_last());
    }
}

/// Over an all-digit string, the value of a prefix never exceeds the
/// value of the whole.
proof fn lemma_dec_value_monotonic(s: Seq<char>, i: int)
    requires
        0 <= i < s.len(),
        forall|j: int| 0 <= j < s.len() ==> is_digit_char(#[trigger] s[j]),
    ensures
        spec_dec_value(s) >= spec_dec_value(s.take(i + 1)),
    decreases s.len() - i,
{
    if i + 1 == s.len() {
        assert(s.take(i + 1) =~= s);
    } else {
        lemma_dec_value_monotonic(s, i + 1);
        assert(s.take(i + 2).drop_last() =~= s.take(i + 1));
        assert(forall|j: int|
            0 <= j < s.take(i + 1).len() ==> is_digit_char(#[trigger] s.take(i + 1)[j]));
        lemma_dec_value_nonneg(s.take(i + 1));
        assert(spec_dec_value(s.take(i + 2)) == spec_dec_value(s.take(i + 1)) * 10 + (s[i
            + 1] as int - 48));
    }
}

/// The haystack starts with the prefix.
pub open spec fn spec_starts_with(h: Seq<char>, prefix: Seq<char>) -> bool {
    h.len() >= prefix.len() && h.take(prefix.len() as int) =~= prefix
}

/// Prefix check.
pub fn str_starts_with(h: &str, prefix: &str) -> (r: bool)
    ensures
        r == spec_starts_with(h@, prefix@),
{
    let hn = h.unicode_len();
    let pn = prefix.unicode_len();
    if pn > hn {
        return false;
    }
    let mut j: usize = 0;
    while j < pn
        invariant
            hn == h@.len(),
            pn == prefix@.len(),
            pn <= hn,
            j <= pn,
            forall|k: int| 0 <= k < j ==> h@[k] == prefix@[k],
        decreases pn - j,
    {
        if h.get_char(j) != prefix.get_char(j) {
            proof {
                assert(h@.take(pn as int)[j as int] != prefix@[j as int]);
            }
            return false;
        }
        j = j + 1;
    }
    proof {
        assert(h@.take(pn as int) =~= prefix@);
    }
    true
}


/// The string with leading whitespace removed.
pub open spec fn spec_trim_ws_front(s: Seq<char>) -> Seq<char>
    decreases s.len(),
{
    if s.len() > 0 && is_space_char(s[0]) {
        spec_trim_ws_front(s.drop_first())
    } else {
        s
    }
}

/// The string with trailing whitespace removed.
pub open spec fn spec_trim_ws_back(s: Seq<char>) -> Seq<char>
    decreases s.len(),
{
    if s.len() > 0 && is_space_char(s.last()) {
        spec_trim_ws_back(s.drop_last())
    } else {
        s
    }
}

/// The string with whitespace removed from both ends: what `str::trim`
/// returns.
pub open spec fn spec_trim_ws(s: Seq<char>) -> Seq<char> {
    spec_trim_ws_back(spec_trim_ws_front(s))
}

proof fn lemma_trim_ws_front_skip(s: Seq<char>, k: int)
    requires
        0 <= k <= s.len(),
        forall|j: int| 0 <= j < k ==> is_space_char(#[trigger] s[j]),
        k == s.len() || !is_space_char(s[k]),
    ensures
        spec_trim_ws_front(s) == s.skip(k),
    decreases k,
{
    if k == 0 {
        assert(s.skip(0) =~= s);
    } else {
        lemma_trim_ws_front_skip(s.drop_first(), k - 1);
        assert(s.drop_first().skip(k - 1) =~= s.skip(k));
    }
}

proof fn lemma_trim_ws_back_take(s: Seq<char>, k: int)
    requires
        0 <= k <= s.len(),
        forall|j: int| k <= j < s.len() ==> is_space_char(#[trigger] s[j]),
        k == 0 || !is_space_char(s[k - 1]),
    ensures
        spec_trim_ws_back(s) == s.take(k),
    decreases s.len(),
{
    if k == s.len() {
        if s.len() == 0 {
            assert(s.take(0) =~= s);
        } else {
            assert(s.take(k) =~= s);
        }
    } else {
        lemma_trim_ws_back_take(s.drop_last(), k);
        assert(s.drop_last().take(k) =~= s.take(k));
    }
}

/// Removes whitespace from both ends.
pub fn trim_whitespace(s: &str) -> (r: String)
    ensures
        r@ == spec_trim_ws(s@),
{
    let n = s.unicode_len();
    let mut start: usize = 0;
    loop
        invariant_except_break
            n == s@.len(),
            start <= n,
            forall|j: int| 0 <= j < start ==> is_space_char(#[trigger] s@[j]),
        ensures
            start <= n,
            forall|j: int| 0 <= j < start ==> is_space_char(#[trigger] s@[j]),
            start == n || !is_space_char(s@[start as int]),
        decreases n - start,
    {
        if start >= n {
            break;
        }
        if !is_space(s.get_char(start)) {
            break;
        }
        start = start + 1;
    }
    let mut end: usize = n;
    loop
        invariant_except_break
            n == s@.len(),
            start <= end <= n,
            start == n || !is_space_char(s@[start as int]),
            forall|j: int| end <= j < n ==> is_space_char(#[trigger] s@[j]),
        ensures
            start <= end <= n,
            start == n || !is_space_char(s@[start as int]),
            forall|j: int| end <= j < n ==> is_space_char(#[trigger] s@[j]),
            end == start || !is_space_char(s@[end - 1]),
        decreases end,
    {
        if end <= start {
            break;
        }
        if !is_space(s.get_char(end - 1)) {
            break;
        }
        end = end - 1;
    }
    proof {
        lemma_trim_ws_front_skip(s@, start as int);
        if end == start {
            lemma_trim_ws_back_take(s@.skip(start as int), 0);
        } else {
            lemma_trim_ws_back_take(s@.skip(start as int), end - start);
        }
        assert(s@.skip(start as int).take(end - start) =~= s@.subrange(
            start as int,
            end as int,
        ));
    }
    let mut out: Vec<char> = Vec::new();
    let mut k: usize = start;
    while k < end
        invariant
            n == s@.len(),
            start <= k <= end <= n,
            out@ =~= s@.subrange(start as int, k as int),
        decreases end - k,
    {
        proof {
            assert(s@.subrange(start as int, k as int + 1) =~= s@.subrange(
                start as int,
                k as int,
            ).push(s@[k as int]));
        }
        let c = s.get_char(k);
        out.push(c);
        k = k + 1;
    }
    string_from_chars(&out)
}

/// What `str::replace` returns: the string with every occurrence of the
/// pattern, scanned left to right, replaced.
pub uninterp spec fn replaced_of(s: Seq<char>, from: Seq<char>, to: Seq<char>) -> Seq<char>;

/// Relies on `str::replace`: the result is a function of the three
/// texts alone, and a string without the pattern comes back unchanged.
#[verifier::external_body]
pub(crate) fn replace_all(s: &str, from: &str, to: &str) -> (r: String)
    ensures
        r@ == replaced_of(s@, from@, to@),
        !spec_contains_sub(s@, from@) ==> r@ == s@,
{
    s.replace(from, to)
}

} // verus!
