//! The match primitive: a literal substring matcher with smart-case rules,
//! and a tagged wrapper that unifies it with the compiled regex matcher.
//!
//! Smart case: when every character of a literal pattern is lowercase or
//! ASCII punctuation, matching is case-insensitive; otherwise it is
//! case-sensitive.  An ASCII case-insensitive search folds bytes; a
//! non-ASCII one lowercases both sides as UTF-8 and searches the lowered
//! forms.

use crate::errors::SearchError;
use crate::rx::{regex_find_of, RegexHandle};
use vstd::pervasive::unreached;
use vstd::prelude::*;
use vstd::string::StringSliceAdditionalSpecFns;
use vstd::utf8::{decode_utf8, encode_utf8, valid_utf8};

verus! {

/// ASCII case folding: uppercase letters map to lowercase, all other bytes
/// are unchanged.
pub open spec fn fold_byte(b: u8) -> u8 {
    if 65 <= b <= 90 {
        (b + 32) as u8
    } else {
        b
    }
}

/// A whole sequence, byte-folded.
pub open spec fn fold_seq(s: Seq<u8>) -> Seq<u8> {
    s.map(|i: int, b: u8| fold_byte(b))
}

/// Byte comparison, case-folded when `ci` holds.
pub open spec fn byte_eq(a: u8, b: u8, ci: bool) -> bool {
    if ci {
        fold_byte(a) == fold_byte(b)
    } else {
        a == b
    }
}

/// The pattern occurs in the haystack at offset `i`.
pub open spec fn win_at(pat: Seq<u8>, hay: Seq<u8>, i: int, ci: bool) -> bool {
    &&& 0 <= i
    &&& i + pat.len() <= hay.len()
    &&& forall|k: int| 0 <= k < pat.len() ==> byte_eq(hay[i + k], pat[k], ci)
}

/// The pattern occurs somewhere in the haystack.
pub open spec fn has_match(pat: Seq<u8>, hay: Seq<u8>, ci: bool) -> bool {
    exists|i: int| win_at(pat, hay, i, ci)
}

/// The offset of the first occurrence of the pattern, if any.
pub open spec fn first_win(pat: Seq<u8>, hay: Seq<u8>, ci: bool) -> Option<int> {
    if has_match(pat, hay, ci) {
        Some(
            choose|i: int|
                win_at(pat, hay, i, ci) && (forall|j: int| 0 <= j < i ==> !win_at(pat, hay, j, ci)),
        )
    } else {
        None
    }
}

/// The pair of byte offsets that a first occurrence reports.
pub open spec fn win_to_pair(w: Option<int>, plen: int) -> Option<(usize, usize)> {
    match w {
        Some(i) => Some((i as usize, (i + plen) as usize)),
        None => None,
    }
}

/// Some occurrence implies a least occurrence.
proof fn lemma_least_exists(pat: Seq<u8>, hay: Seq<u8>, ci: bool, i: int)
    requires
        win_at(pat, hay, i, ci),
    ensures
        exists|m: int|
            win_at(pat, hay, m, ci) && (forall|j: int| 0 <= j < m ==> !win_at(pat, hay, j, ci)),
    decreases i,
{
    if forall|j: int| 0 <= j < i ==> !win_at(pat, hay, j, ci) {
        assert(win_at(pat, hay, i, ci) && (forall|j: int|
            0 <= j < i ==> !win_at(pat, hay, j, ci)));
    } else {
        let j0 = choose|j: int| 0 <= j < i && win_at(pat, hay, j, ci);
        lemma_least_exists(pat, hay, ci, j0);
    }
}

/// An occurrence with nothing before it is the first occurrence.
pub proof fn lemma_first_win_at(pat: Seq<u8>, hay: Seq<u8>, ci: bool, s: int)
    requires
        win_at(pat, hay, s, ci),
        forall|j: int| 0 <= j < s ==> !win_at(pat, hay, j, ci),
    ensures
        first_win(pat, hay, ci) == Some(s),
{
    assert(has_match(pat, hay, ci));
    lemma_least_exists(pat, hay, ci, s);
    let m = choose|i: int|
        win_at(pat, hay, i, ci) && (forall|j: int| 0 <= j < i ==> !win_at(pat, hay, j, ci));
    if m < s {
        assert(!win_at(pat, hay, m, ci));
    }
    if s < m {
        assert(!win_at(pat, hay, s, ci));
    }
}

/// Direct matcher to match as substring.
#[derive(Clone, Debug)]
pub struct DirectMatcher {
    pub is_ascii: bool,
    pub match_lowercase: bool,
    pub pattern: Vec<u8>,
}

/// The character has the Unicode `Lowercase` property.  Named after
/// `char::is_lowercase`, whose result depends on the character alone.
pub uninterp spec fn unicode_lowercase(c: char) -> bool;

/// The lowercased form of a character sequence.  Named after
/// `str::to_lowercase`, whose result depends on the characters alone.
pub uninterp spec fn lower_of(s: Seq<char>) -> Seq<char>;

/// The character is ASCII punctuation.
pub open spec fn ascii_punct(c: char) -> bool {
    let u = c as u32;
    (33 <= u <= 47) || (58 <= u <= 64) || (91 <= u <= 96) || (123 <= u <= 126)
}

/// Every character is lowercase or ASCII punctuation: the condition under
/// which smart case turns a literal search case-insensitive.
pub open spec fn smart_lower(chars: Seq<char>) -> bool {
    forall|i: int| 0 <= i < chars.len() ==> unicode_lowercase(chars[i]) || ascii_punct(chars[i])
}

/// Relies on `char::is_lowercase`: whether the character has the Unicode
/// `Lowercase` property; on ASCII that holds exactly of `'a'..='z'`.
#[verifier::external_body]
fn char_is_lowercase(c: char) -> (r: bool)
    ensures
        r == unicode_lowercase(c),
        (c as u32) < 128 ==> (r <==> (97 <= c as u32 <= 122)),
{
    c.is_lowercase()
}

/// Relies on `str::chars`: the iterator yields exactly the character
/// sequence of the string, which is its view.
#[verifier::external_body]
fn str_chars_vec(s: &str) -> (r: Vec<char>)
    ensures
        r@ == s@,
{
    s.chars().collect()
}

/// Relies on `str::from_utf8`: it succeeds exactly on valid UTF-8 and
/// returns the string slice over those same bytes.
#[verifier::external_body]
fn utf8_to_str(b: &[u8]) -> (r: Result<&str, SearchError>)
    ensures
        r is Ok <==> valid_utf8(b@),
        r matches Ok(s) ==> s@ == decode_utf8(b@) && s.spec_bytes() == b@,
        r matches Err(e) ==> e == SearchError::Encoding,
{
    match std::str::from_utf8(b) {
        Ok(s) => Ok(s),
        Err(_) => Err(SearchError::Encoding),
    }
}

/// Relies on `str::to_lowercase`: the result is a function of the
/// characters alone.
#[verifier::external_body]
fn lower_str(s: &str) -> (r: String)
    ensures
        r@ == lower_of(s@),
{
    s.to_lowercase()
}

/// Exec twin of `ascii_punct`.
fn is_ascii_punct(c: char) -> (r: bool)
    ensures
        r == ascii_punct(c),
{
    let u = c as u32;
    (33 <= u && u <= 47) || (58 <= u && u <= 64) || (91 <= u && u <= 96) || (123 <= u && u <= 126)
}

/// Exec twin of `fold_byte`.
fn fold_byte_x(b: u8) -> (r: u8)
    ensures
        r == fold_byte(b),
{
    if 65 <= b && b <= 90 {
        b + 32
    } else {
        b
    }
}

/// Whether the pattern occurs at offset `i` of the haystack.
fn win_eq(pat: &[u8], hay: &[u8], i: usize, ci: bool) -> (r: bool)
    requires
        i + pat@.len() <= hay@.len(),
    ensures
        r == win_at(pat@, hay@, i as int, ci),
{
    let plen = pat.len();
    let hlen = hay.len();
    let mut k: usize = 0;
    while k < plen
        invariant
            i + pat@.len() <= hay@.len(),
            k <= plen,
            plen == pat@.len(),
            hlen == hay@.len(),
            forall|m: int| 0 <= m < k ==> byte_eq(hay@[i + m], pat@[m], ci),
        decreases plen - k,
    {
        let hb = hay[i + k];
        let pb = pat[k];
        let eq = if ci {
            fold_byte_x(hb) == fold_byte_x(pb)
        } else {
            hb == pb
        };
        if !eq {
            assert(!byte_eq(hay@[i + k], pat@[k as int], ci));
            return false;
        }
        k = k + 1;
    }
    true
}

/// First occurrence of `pat` in `hay`, scanning offsets left to right.
fn scan_first(pat: &[u8], hay: &[u8], ci: bool) -> (r: Option<(usize, usize)>)
    requires
        pat@.len() <= hay@.len(),
    ensures
        r == win_to_pair(first_win(pat@, hay@, ci), pat@.len() as int),
{
    let plen = pat.len();
    let hlen = hay.len();
    if plen == 0 {
        proof {
            assert(win_at(pat@, hay@, 0, ci));
            lemma_first_win_at(pat@, hay@, ci, 0);
        }
        return Some((0usize, 0usize));
    }
    let mut i: usize = 0;
    loop
        invariant
            plen == pat@.len(),
            hlen == hay@.len(),
            1 <= plen <= hlen,
            0 <= i,
            i + plen <= hlen + 1,
            forall|j: int| 0 <= j < i ==> !win_at(pat@, hay@, j, ci),
        decreases hlen + 1 - i - plen,
    {
        if plen > hlen - i {
            proof {
                assert forall|j: int| !win_at(pat@, hay@, j, ci) by {
                    if 0 <= j < i {
                    } else if j >= i {
                        assert(j + pat@.len() > hay@.len());
                    }
                }
                assert(!has_match(pat@, hay@, ci));
            }
            return None;
        }
        if win_eq(pat, hay, i, ci) {
            proof {
                lemma_first_win_at(pat@, hay@, ci, i as int);
            }
            return Some((i, i + plen));
        }
        i = i + 1;
    }
}

/// The result the direct matcher owes for a haystack: `None` when the raw
/// pattern is longer than the haystack; otherwise the first occurrence,
/// byte-folded when smart case applies to an ASCII pattern, and computed
/// over the lowercased UTF-8 forms when it applies to a non-ASCII pattern.
/// The non-ASCII case-insensitive path demands valid UTF-8 of both sides
/// and otherwise fails with `Encoding`.
pub open spec fn spec_direct_find(m: DirectMatcher, hay: Seq<u8>) -> Result<
    Option<(usize, usize)>,
    SearchError,
> {
    let p = m.pattern@;
    if p.len() > hay.len() {
        Ok(None)
    } else if !m.match_lowercase {
        Ok(win_to_pair(first_win(p, hay, false), p.len() as int))
    } else if m.is_ascii {
        Ok(win_to_pair(first_win(p, hay, true), p.len() as int))
    } else if !valid_utf8(p) || !valid_utf8(hay) {
        Err(SearchError::Encoding)
    } else {
        let lp = encode_utf8(lower_of(decode_utf8(p)));
        let lh = encode_utf8(lower_of(decode_utf8(hay)));
        if lp.len() > lh.len() {
            Ok(None)
        } else {
            Ok(win_to_pair(first_win(lp, lh, false), lp.len() as int))
        }
    }
}

impl DirectMatcher {
    /// Creates new direct matcher.  With `case_smart` enabled, matching is
    /// case-insensitive exactly when every pattern character is lowercase
    /// or ASCII punctuation.
    pub fn new(pattern: &str, case_smart: bool) -> (r: Self)
        ensures
            r.pattern@ == pattern.spec_bytes(),
            r.is_ascii == vstd::string::is_ascii(pattern),
            r.match_lowercase == (case_smart && smart_lower(pattern@)),
    {
        let is_ascii = pattern.is_ascii();
        let chars = str_chars_vec(pattern);
        let mut all_lower = true;
        let mut i: usize = 0;
        while i < chars.len()
            invariant
                chars@ == pattern@,
                i <= chars@.len(),
                all_lower == (forall|j: int|
                    0 <= j < i ==> unicode_lowercase(chars@[j]) || ascii_punct(chars@[j])),
            decreases chars@.len() - i,
        {
            let c = chars[i];
            if !(char_is_lowercase(c) || is_ascii_punct(c)) {
                all_lower = false;
            }
            i = i + 1;
        }
        let bytes = pattern.as_bytes();
        let mut pat: Vec<u8> = Vec::new();
        let mut k: usize = 0;
        while k < bytes.len()
            invariant
                bytes@ == pattern.spec_bytes(),
                k <= bytes@.len(),
                pat@ == bytes@.subrange(0, k as int),
            decreases bytes@.len() - k,
        {
            pat.push(bytes[k]);
            proof {
                assert(pat@ =~= bytes@.subrange(0, k + 1 as int));
            }
            k = k + 1;
        }
        proof {
            assert(pat@ =~= pattern.spec_bytes());
        }
        Self { is_ascii, match_lowercase: case_smart && all_lower, pattern: pat }
    }

    /// Finds the first match in the haystack, as `spec_direct_find` states.
    /// The starting offset is part of the sink interface the matcher serves
    /// and is not consulted: this matcher always scans whole lines.
    pub fn find_at(&self, haystack: &[u8], _at: usize) -> (r: Result<
        Option<(usize, usize)>,
        SearchError,
    >)
        ensures
            r == spec_direct_find(*self, haystack@),
    {
        let plen = self.pattern.len();
        let hlen = haystack.len();
        if plen > hlen {
            return Ok(None);
        }
        if self.match_lowercase {
            if self.is_ascii {
                Ok(scan_first(self.pattern.as_slice(), haystack, true))
            } else {
                let p = match utf8_to_str(self.pattern.as_slice()) {
                    Ok(p) => p,
                    Err(e) => {
                        return Err(e);
                    },
                };
                let h = match utf8_to_str(haystack) {
                    Ok(h) => h,
                    Err(e) => {
                        return Err(e);
                    },
                };
                let lp = lower_str(p);
                let lh = lower_str(h);
                let lpb = lp.as_str().as_bytes();
                let lhb = lh.as_str().as_bytes();
                if lpb.len() > lhb.len() {
                    Ok(None)
                } else {
                    Ok(scan_first(lpb, lhb, false))
                }
            }
        } else {
            Ok(scan_first(self.pattern.as_slice(), haystack, false))
        }
    }

    /// Finds the first match located within the haystack bytes themselves,
    /// as `spec_direct_locate` states: exactly like `find_at`, except that
    /// the non-ASCII case-insensitive path reports no offsets, since its
    /// match lies in the lowercased forms and not in these bytes.
    pub fn locate(&self, haystack: &[u8]) -> (r: Result<Option<(usize, usize)>, SearchError>)
        ensures
            r == spec_direct_locate(*self, haystack@),
    {
        let plen = self.pattern.len();
        let hlen = haystack.len();
        if plen > hlen {
            return Ok(None);
        }
        if self.match_lowercase {
            if self.is_ascii {
                Ok(scan_first(self.pattern.as_slice(), haystack, true))
            } else {
                match utf8_to_str(self.pattern.as_slice()) {
                    Ok(_) => (),
                    Err(e) => {
                        return Err(e);
                    },
                }
                match utf8_to_str(haystack) {
                    Ok(_) => (),
                    Err(e) => {
                        return Err(e);
                    },
                }
                Ok(None)
            }
        } else {
            Ok(scan_first(self.pattern.as_slice(), haystack, false))
        }
    }
}

/// A unified matcher: either a direct literal matcher or a compiled regex.
#[derive(Clone)]
pub enum MatcherSpec {
    Direct(DirectMatcher),
    Regex(RegexHandle),
}

/// The result `MatcherSpec::find` owes: the direct matcher's first match,
/// or the compiled regex's first match on the pattern the handle was built
/// from.
pub open spec fn spec_find(m: MatcherSpec, hay: Seq<u8>) -> Result<
    Option<(usize, usize)>,
    SearchError,
> {
    match m {
        MatcherSpec::Direct(d) => spec_direct_find(d, hay),
        MatcherSpec::Regex(h) => Ok(regex_find_of(h.spec_pattern(), hay)),
    }
}

/// The offsets `MatcherSpec::locate` owes: the first match located within
/// the given bytes themselves, or `None` where none can be.  For the
/// non-ASCII case-insensitive literal path the match is found in the
/// lowercased forms, whose offsets do not index the given bytes, so that
/// branch locates nothing — it only demands valid UTF-8, failing with
/// `Encoding` otherwise, as the search itself would.
pub open spec fn spec_direct_locate(m: DirectMatcher, hay: Seq<u8>) -> Result<
    Option<(usize, usize)>,
    SearchError,
> {
    let p = m.pattern@;
    if p.len() > hay.len() {
        Ok(None)
    } else if !m.match_lowercase {
        Ok(win_to_pair(first_win(p, hay, false), p.len() as int))
    } else if m.is_ascii {
        Ok(win_to_pair(first_win(p, hay, true), p.len() as int))
    } else if !valid_utf8(p) || !valid_utf8(hay) {
        Err(SearchError::Encoding)
    } else {
        Ok(None)
    }
}

/// See `spec_direct_locate`; the regex matcher reports raw byte offsets, so
/// for it locating is finding.
pub open spec fn spec_locate(m: MatcherSpec, hay: Seq<u8>) -> Result<
    Option<(usize, usize)>,
    SearchError,
> {
    match m {
        MatcherSpec::Direct(d) => spec_direct_locate(d, hay),
        MatcherSpec::Regex(h) => Ok(regex_find_of(h.spec_pattern(), hay)),
    }
}

/// Whether the matcher matches the haystack at all: a failing find counts
/// as no match.
pub open spec fn spec_is_match(m: MatcherSpec, hay: Seq<u8>) -> bool {
    match spec_find(m, hay) {
        Ok(Some(_)) => true,
        _ => false,
    }
}

impl MatcherSpec {
    /// Creates regex matcher.
    pub fn regex(matcher: RegexHandle) -> (r: Self)
        ensures
            r == MatcherSpec::Regex(matcher),
    {
        MatcherSpec::Regex(matcher)
    }

    /// Creates direct matcher.
    pub fn direct(matcher: DirectMatcher) -> (r: Self)
        ensures
            r == MatcherSpec::Direct(matcher),
    {
        MatcherSpec::Direct(matcher)
    }

    /// Returns true if regex is set.
    pub fn is_regex(&self) -> (r: bool)
        ensures
            r == (self is Regex),
    {
        match self {
            MatcherSpec::Regex(_) => true,
            MatcherSpec::Direct(_) => false,
        }
    }

    /// Converts spec into the compiled regex matcher.
    pub fn as_regex(self) -> (r: grep::regex::RegexMatcher)
        requires
            self is Regex,
        ensures
            self matches MatcherSpec::Regex(h) ==> r == h.spec_matcher(),
    {
        match self {
            MatcherSpec::Regex(h) => h.into_matcher(),
            MatcherSpec::Direct(_) => unreached(),
        }
    }

    /// Converts spec into the direct matcher.
    pub fn as_direct(self) -> (r: DirectMatcher)
        requires
            self is Direct,
        ensures
            self == MatcherSpec::Direct(r),
    {
        match self {
            MatcherSpec::Direct(d) => d,
            MatcherSpec::Regex(_) => unreached(),
        }
    }

    /// Finds the first match in the haystack.
    pub fn find(&self, haystack: &[u8]) -> (r: Result<Option<(usize, usize)>, SearchError>)
        ensures
            r == spec_find(*self, haystack@),
    {
        match self {
            MatcherSpec::Direct(d) => d.find_at(haystack, 0),
            MatcherSpec::Regex(h) => Ok(crate::rx::regex_find(h, haystack)),
        }
    }

    /// Finds the first match located within the haystack bytes themselves,
    /// as `spec_locate` states.  The collector stores these offsets, so a
    /// match that can only be placed in the lowercased forms reports none.
    pub fn locate(&self, haystack: &[u8]) -> (r: Result<Option<(usize, usize)>, SearchError>)
        ensures
            r == spec_locate(*self, haystack@),
    {
        match self {
            MatcherSpec::Direct(d) => d.locate(haystack),
            MatcherSpec::Regex(h) => Ok(crate::rx::regex_find(h, haystack)),
        }
    }

    /// Whether the haystack contains a match; a failing find is no match.
    pub fn is_match(&self, haystack: &str) -> (r: bool)
        ensures
            r == spec_is_match(*self, haystack.spec_bytes()),
    {
        let b = haystack.as_bytes();
        match self {
            MatcherSpec::Regex(h) => crate::rx::regex_is_match(h, b),
            MatcherSpec::Direct(d) => match d.find_at(b, 0) {
                Ok(Some(_)) => true,
                _ => false,
            },
        }
    }
}

/// Case folding is idempotent.
proof fn lemma_fold_idempotent(b: u8)
    ensures
        fold_byte(fold_byte(b)) == fold_byte(b),
{
}

/// Smart-case law: a case-insensitive search finds a match in a haystack
/// whenever it finds one in the byte-folded (lowercased) haystack.
pub proof fn lemma_smart_case(pat: Seq<u8>, hay: Seq<u8>)
    ensures
        has_match(pat, fold_seq(hay), true) ==> has_match(pat, hay, true),
{
    if has_match(pat, fold_seq(hay), true) {
        let i = choose|i: int| win_at(pat, fold_seq(hay), i, true);
        assert(win_at(pat, hay, i, true)) by {
            assert forall|k: int| 0 <= k < pat.len() implies byte_eq(hay[i + k], pat[k], true) by {
                assert(byte_eq(fold_seq(hay)[i + k], pat[k], true));
                assert(fold_seq(hay)[i + k] == fold_byte(hay[i + k]));
                lemma_fold_idempotent(hay[i + k]);
            }
        }
    }
}

/// Smart-case law at the matcher: when smart case made an ASCII literal
/// matcher case-insensitive, a find that succeeds on the byte-folded
/// haystack also succeeds on the haystack itself.
pub proof fn lemma_smart_case_find(m: DirectMatcher, hay: Seq<u8>)
    requires
        m.match_lowercase,
        m.is_ascii,
    ensures
        spec_direct_find(m, fold_seq(hay)) matches Ok(Some(_)) ==> spec_direct_find(
            m,
            hay,
        ) matches Ok(Some(_)),
{
    assert(fold_seq(hay).len() == hay.len());
    if spec_direct_find(m, fold_seq(hay)) matches Ok(Some(_)) {
        let p = m.pattern@;
        assert(p.len() <= hay.len());
        assert(first_win(p, fold_seq(hay), true) is Some);
        assert(has_match(p, fold_seq(hay), true));
        lemma_smart_case(p, hay);
        assert(has_match(p, hay, true));
        assert(first_win(p, hay, true) is Some);
    }
}

} // verus!
