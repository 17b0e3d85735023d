//! The per-file collector.  It consumes the scanner's events — matched
//! lines, context lines, context breaks, and the end of the file — and
//! groups them into ordered match groups, emitting one content hit per file
//! that had matches.
//!
//! The scanner delivers lines in file order with 1-based, strictly
//! ascending line numbers; the collector requires that and in return
//! guarantees that every emitted hit is well-formed: no empty hit, no empty
//! group, groups ordered by ascending first line number, and lines within a
//! group ascending.  Callers count matched lines toward the shared content
//! budget and pass the current count to `context_break`.

use crate::errors::SearchError;
use crate::ext::Extension;
use crate::matcher::{spec_locate, MatcherSpec};
use crate::report::{
    line_wf, spec_kept_offsets, spec_truncate_bytes, ContentItem, ContentKind, ContentLine,
    ContentMatch, MAX_LENGTH,
};
use crate::search::CONTENT_MAX_MATCHES;
use vstd::prelude::*;

verus! {

/// The line numbers of a match group, in storage order.
pub open spec fn group_nums(m: ContentMatch) -> Seq<u64> {
    m.lines@.map(|i: int, l: ContentLine| l.num)
}

/// The sequence is strictly ascending.
pub open spec fn strictly_inc(s: Seq<u64>) -> bool {
    forall|i: int, j: int| 0 <= i < j < s.len() ==> s[i] < s[j]
}

/// A well-formed match group: non-empty, line numbers strictly ascending,
/// every line truncated correctly.
pub open spec fn group_wf(m: ContentMatch) -> bool {
    &&& m.lines@.len() > 0
    &&& strictly_inc(group_nums(m))
    &&& forall|i: int| 0 <= i < m.lines@.len() ==> line_wf(#[trigger] m.lines@[i])
}

/// The first line number of a match group.
pub open spec fn first_num(m: ContentMatch) -> u64 {
    m.lines@[0].num
}

/// A well-formed content hit: at least one group, every group well-formed,
/// groups ordered by strictly ascending first line number.
pub open spec fn hit_wf(item: ContentItem) -> bool {
    &&& item.matches@.len() > 0
    &&& (forall|g: int| 0 <= g < item.matches@.len() ==> group_wf(#[trigger] item.matches@[g]))
    &&& (forall|g: int, h: int|
        0 <= g < h < item.matches@.len() ==> first_num(item.matches@[g]) < first_num(
            item.matches@[h],
        ))
}

/// The match offsets a find result carries, if any.
pub open spec fn opt_start(o: Option<(usize, usize)>) -> Option<usize> {
    match o {
        Some(p) => Some(p.0),
        None => None,
    }
}

/// See `opt_start`.
pub open spec fn opt_end(o: Option<(usize, usize)>) -> Option<usize> {
    match o {
        Some(p) => Some(p.1),
        None => None,
    }
}

/// The stored line that an event with these values must produce.
pub open spec fn line_matches(
    l: ContentLine,
    kind: ContentKind,
    n: u64,
    bytes: Seq<u8>,
    s: Option<usize>,
    e: Option<usize>,
) -> bool {
    &&& l.kind == kind
    &&& l.num == n
    &&& l.bytes@ == spec_truncate_bytes(bytes)
    &&& l.truncated == (bytes.len() >= MAX_LENGTH)
    &&& (l.match_start, l.match_end) == spec_kept_offsets(s, e, bytes.len() as int)
}

/// Sink state for one file's scan.
pub struct Collector {
    pub path: String,
    pub ext: Extension,
    pub matcher: MatcherSpec,
    pub lines: Vec<ContentLine>,
    pub matches: Vec<ContentMatch>,
    pub last_num: u64,
}

impl Collector {
    /// The line numbers of the pending (unflushed) lines.
    pub open spec fn pending_nums(self) -> Seq<u64> {
        self.lines@.map(|i: int, l: ContentLine| l.num)
    }

    /// The collector's invariant: pending lines ascending and truncated
    /// correctly, flushed groups well-formed and ordered, every stored line
    /// number at most `last_num`, and everything flushed preceding
    /// everything pending.
    pub open spec fn wf(self) -> bool {
        &&& strictly_inc(self.pending_nums())
        &&& (forall|i: int| 0 <= i < self.lines@.len() ==> line_wf(#[trigger] self.lines@[i]))
        &&& (forall|i: int|
            0 <= i < self.lines@.len() ==> (#[trigger] self.lines@[i].num) <= self.last_num)
        &&& (forall|g: int| 0 <= g < self.matches@.len() ==> group_wf(#[trigger] self.matches@[g]))
        &&& (forall|g: int, k: int|
            0 <= g < self.matches@.len() && 0 <= k < self.matches@[g].lines@.len() ==> (
            #[trigger] self.matches@[g].lines@[k].num) <= self.last_num)
        &&& (self.lines@.len() > 0 ==> (forall|g: int, k: int|
            0 <= g < self.matches@.len() && 0 <= k < self.matches@[g].lines@.len() ==> (
            #[trigger] self.matches@[g].lines@[k].num) < self.lines@[0].num))
        &&& (forall|g: int, h: int|
            0 <= g < h < self.matches@.len() ==> first_num(self.matches@[g]) < first_num(
                self.matches@[h],
            ))
    }

    /// Creates a new collector for one file.
    pub fn new(path: String, matcher: MatcherSpec, ext: Extension) -> (r: Self)
        ensures
            r.path == path,
            r.ext == ext,
            r.matcher == matcher,
            r.lines@.len() == 0,
            r.matches@.len() == 0,
            r.last_num == 0,
            r.wf(),
    {
        Self { path, ext, matcher, lines: Vec::new(), matches: Vec::new(), last_num: 0 }
    }

    /// Appends one line, which must carry a number above everything stored.
    fn push_line(&mut self, l: ContentLine)
        requires
            old(self).wf(),
            line_wf(l),
            l.num > old(self).last_num,
        ensures
            final(self).wf(),
            final(self).lines@ == old(self).lines@.push(l),
            final(self).matches == old(self).matches,
            final(self).path == old(self).path,
            final(self).ext == old(self).ext,
            final(self).matcher == old(self).matcher,
            final(self).last_num == l.num,
    {
        proof {
            assert(forall|i: int|
                0 <= i < self.lines@.len() ==> (#[trigger] self.lines@[i].num) <= self.last_num);
        }
        let n = l.num;
        self.lines.push(l);
        self.last_num = n;
        proof {
            assert(self.pending_nums() =~= old(self).pending_nums().push(l.num));
            assert(strictly_inc(self.pending_nums())) by {
                assert(forall|i: int|
                    0 <= i < old(self).pending_nums().len() ==> old(self).pending_nums()[i] == (
                    #[trigger] old(self).lines@[i].num));
            }
        }
    }

    /// A matched line: the matcher is re-run on the line bytes to recover
    /// the match offsets, and the line is stored with those that locate the
    /// match within the line bytes themselves.  The caller counts the line
    /// toward the shared content budget.
    pub fn matched(&mut self, line_number: Option<u64>, bytes: &[u8]) -> (r: Result<
        bool,
        SearchError,
    >)
        requires
            old(self).wf(),
            line_number matches Some(n) ==> n > old(self).last_num,
        ensures
            final(self).wf(),
            final(self).path == old(self).path,
            final(self).ext == old(self).ext,
            final(self).matcher == old(self).matcher,
            final(self).matches == old(self).matches,
            line_number is None ==> r == Err::<bool, SearchError>(SearchError::LineNumbersDisabled)
                && *final(self) == *old(self),
            line_number matches Some(n) ==> match spec_locate(old(self).matcher, bytes@) {
                Err(e) => r == Err::<bool, SearchError>(e) && *final(self) == *old(self),
                Ok(loc) => {
                    &&& r == Ok::<bool, SearchError>(true)
                    &&& final(self).lines@.len() == old(self).lines@.len() + 1
                    &&& final(self).lines@.subrange(0, old(self).lines@.len() as int) == old(
                        self,
                    ).lines@
                    &&& line_matches(
                        final(self).lines@.last(),
                        ContentKind::Match,
                        n,
                        bytes@,
                        opt_start(loc),
                        opt_end(loc),
                    )
                    &&& final(self).last_num == n
                },
            },
    {
        match line_number {
            None => Err(SearchError::LineNumbersDisabled),
            Some(n) => {
                let loc = match self.matcher.locate(bytes) {
                    Ok(loc) => loc,
                    Err(e) => {
                        return Err(e);
                    },
                };
                let (s, e) = match loc {
                    Some(p) => (Some(p.0), Some(p.1)),
                    None => (None, None),
                };
                let line = ContentLine::new(ContentKind::Match, n, bytes, s, e);
                self.push_line(line);
                proof {
                    assert(self.lines@.subrange(0, old(self).lines@.len() as int) =~= old(
                        self,
                    ).lines@);
                }
                Ok(true)
            },
        }
    }

    /// A context line before or after a matched line; it carries no match
    /// offsets.
    pub fn context(&mut self, kind: ContentKind, line_number: Option<u64>, bytes: &[u8]) -> (r:
        Result<bool, SearchError>)
        requires
            old(self).wf(),
            kind != ContentKind::Match,
            line_number matches Some(n) ==> n > old(self).last_num,
        ensures
            final(self).wf(),
            final(self).path == old(self).path,
            final(self).ext == old(self).ext,
            final(self).matcher == old(self).matcher,
            final(self).matches == old(self).matches,
            line_number is None ==> r == Err::<bool, SearchError>(SearchError::LineNumbersDisabled)
                && *final(self) == *old(self),
            line_number matches Some(n) ==> {
                &&& r == Ok::<bool, SearchError>(true)
                &&& final(self).lines@.len() == old(self).lines@.len() + 1
                &&& final(self).lines@.subrange(0, old(self).lines@.len() as int) == old(
                    self,
                ).lines@
                &&& line_matches(final(self).lines@.last(), kind, n, bytes@, None, None)
                &&& final(self).last_num == n
            },
    {
        match line_number {
            None => Err(SearchError::LineNumbersDisabled),
            Some(n) => {
                let line = ContentLine::without_match(kind, n, bytes);
                self.push_line(line);
                proof {
                    assert(self.lines@.subrange(0, old(self).lines@.len() as int) =~= old(
                        self,
                    ).lines@);
                }
                Ok(true)
            },
        }
    }

    /// Moves the pending lines into a new match group.
    fn flush_lines(&mut self)
        requires
            old(self).wf(),
            old(self).lines@.len() > 0,
        ensures
            final(self).wf(),
            final(self).lines@.len() == 0,
            final(self).matches@.len() == old(self).matches@.len() + 1,
            final(self).matches@.subrange(0, old(self).matches@.len() as int) == old(self).matches@,
            final(self).matches@.last().lines@ == old(self).lines@,
            final(self).path == old(self).path,
            final(self).ext == old(self).ext,
            final(self).matcher == old(self).matcher,
            final(self).last_num == old(self).last_num,
    {
        let mut tmp: Vec<ContentLine> = Vec::new();
        core::mem::swap(&mut tmp, &mut self.lines);
        let group = ContentMatch::new(tmp);
        self.matches.push(group);
        proof {
            assert(self.matches@.subrange(0, old(self).matches@.len() as int) =~= old(
                self,
            ).matches@);
            assert(group_nums(group) =~= old(self).pending_nums());
            assert(group_wf(group));
            assert forall|g: int, h: int|
                0 <= g < h < self.matches@.len() implies first_num(self.matches@[g]) < first_num(
                self.matches@[h],
            ) by {
                if h < old(self).matches@.len() {
                } else {
                    assert(self.matches@[h] == group);
                    assert(first_num(group) == old(self).lines@[0].num);
                    assert(old(self).matches@[g].lines@[0].num < old(self).lines@[0].num);
                }
            }
        }
    }

    /// A break between non-contiguous match regions.  Once the shared
    /// content budget is exceeded the file is cut short; otherwise any
    /// pending lines are flushed into a completed group.
    pub fn context_break(&mut self, content_count: usize) -> (r: bool)
        requires
            old(self).wf(),
        ensures
            final(self).wf(),
            final(self).path == old(self).path,
            final(self).ext == old(self).ext,
            final(self).matcher == old(self).matcher,
            final(self).last_num == old(self).last_num,
            content_count > CONTENT_MAX_MATCHES ==> r == false && *final(self) == *old(self),
            content_count <= CONTENT_MAX_MATCHES ==> {
                &&& r == true
                &&& final(self).lines@.len() == 0
                &&& (old(self).lines@.len() == 0 ==> *final(self) == *old(self))
                &&& (old(self).lines@.len() > 0 ==> final(self).matches@.len() == old(
                    self,
                ).matches@.len() + 1 && final(self).matches@.subrange(
                    0,
                    old(self).matches@.len() as int,
                ) == old(self).matches@ && final(self).matches@.last().lines@ == old(self).lines@)
            },
    {
        if content_count > CONTENT_MAX_MATCHES {
            return false;
        }
        if self.lines.len() > 0 {
            self.flush_lines();
        }
        true
    }

    /// The end of the file: flushes any pending lines and hands back the
    /// file's content hit, or nothing when the file had no matches.
    pub fn finish(self) -> (r: Option<ContentItem>)
        requires
            self.wf(),
        ensures
            (r is Some) <==> (self.matches@.len() + self.lines@.len() > 0),
            r matches Some(item) ==> {
                &&& item.path == self.path
                &&& item.ext == self.ext
                &&& hit_wf(item)
                &&& item.matches@.len() == self.matches@.len() + (if self.lines@.len() > 0 {
                    1int
                } else {
                    0int
                })
                &&& item.matches@.subrange(0, self.matches@.len() as int) == self.matches@
                &&& (self.lines@.len() > 0 ==> item.matches@.last().lines@ == self.lines@)
            },
    {
        let mut c = self;
        if c.lines.len() > 0 {
            c.flush_lines();
        }
        if c.matches.len() > 0 {
            let Collector { path, ext, matcher: _, lines: _, matches, last_num: _ } = c;
            Some(ContentItem::new(path, ext, matches))
        } else {
            None
        }
    }
}

} // verus!
