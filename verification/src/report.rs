//! The data model of a search report: filename hits, content hits with their
//! grouped match and context lines, bounded-count markers, and the report
//! itself.  Long lines are truncated to a fixed window before they are
//! stored.

use crate::ext::Extension;
use vstd::prelude::*;

verus! {

/// Bytes of a stored line are capped at this prefix length ...
pub const MAX_PREFIX_LENGTH: usize = 120;
/// ... plus this suffix length ...
pub const MAX_SUFFIX_LENGTH: usize = 17;
/// ... plus the three bytes of the `...` marker between them.
pub const MAX_LENGTH: usize = 140;

/// A file whose name matched the pattern.
#[derive(Clone, Debug)]
pub struct FileItem {
    pub path: String,
    pub ext: Extension,
}

impl FileItem {
    /// Creates new file item from path and file extension.
    pub fn new(path: String, ext: Extension) -> (r: Self)
        ensures
            r.path == path,
            r.ext == ext,
    {
        Self { path, ext }
    }
}

/// The role of a line inside a match group.
#[derive(Clone, Copy, Debug, PartialEq, Eq, Structural)]
pub enum ContentKind {
    Before,
    Match,
    After,
}

/// The bytes a line is stored as: verbatim when shorter than `MAX_LENGTH`,
/// otherwise the first `MAX_PREFIX_LENGTH` bytes, a `...` marker, and the
/// last `MAX_SUFFIX_LENGTH` bytes.
pub open spec fn spec_truncate_bytes(b: Seq<u8>) -> Seq<u8> {
    if b.len() < MAX_LENGTH {
        b
    } else {
        b.subrange(0, MAX_PREFIX_LENGTH as int) + seq![46u8, 46u8, 46u8] + b.subrange(
            b.len() - MAX_SUFFIX_LENGTH,
            b.len() as int,
        )
    }
}

/// Match offsets are kept only when the line is stored verbatim, or when the
/// whole match falls inside the preserved prefix; otherwise both are cleared.
pub open spec fn spec_kept_offsets(
    start: Option<usize>,
    end: Option<usize>,
    len: int,
) -> (Option<usize>, Option<usize>) {
    if len < MAX_LENGTH {
        (start, end)
    } else if start is Some && end is Some && end->0 <= MAX_PREFIX_LENGTH {
        (start, end)
    } else {
        (None::<usize>, None::<usize>)
    }
}

/// One line of a content hit: a matched line or one of its context lines.
#[derive(Clone, Debug)]
pub struct ContentLine {
    pub kind: ContentKind,
    pub num: u64,
    pub bytes: Vec<u8>,
    pub truncated: bool,
    pub match_start: Option<usize>,
    pub match_end: Option<usize>,
}

/// A stored line is truncated exactly when its bytes fill the whole
/// `MAX_LENGTH` window; an untruncated line is strictly shorter.
pub open spec fn line_wf(l: ContentLine) -> bool {
    &&& l.truncated ==> l.bytes@.len() == MAX_LENGTH
    &&& !l.truncated ==> l.bytes@.len() < MAX_LENGTH
}

/// Copies `b[from..to]` into a fresh vector.
fn copy_range(b: &[u8], from: usize, to: usize) -> (r: Vec<u8>)
    requires
        from <= to <= b@.len(),
    ensures
        r@ == b@.subrange(from as int, to as int),
{
    let mut r: Vec<u8> = Vec::new();
    let mut i: usize = from;
    while i < to
        invariant
            from <= i <= to <= b@.len(),
            r@ == b@.subrange(from as int, i as int),
        decreases to - i,
    {
        r.push(b[i]);
        proof {
            assert(r@ =~= b@.subrange(from as int, i + 1 as int));
        }
        i = i + 1;
    }
    r
}

impl ContentLine {
    /// Creates a new content line, truncating over-long bytes to the
    /// `MAX_LENGTH` window and clearing match offsets that do not fall
    /// entirely inside the preserved prefix.
    pub fn new(
        kind: ContentKind,
        line_number: u64,
        bytes: &[u8],
        match_start: Option<usize>,
        match_end: Option<usize>,
    ) -> (r: Self)
        ensures
            r.kind == kind,
            r.num == line_number,
            r.bytes@ == spec_truncate_bytes(bytes@),
            r.truncated == (bytes@.len() >= MAX_LENGTH),
            (r.match_start, r.match_end) == spec_kept_offsets(
                match_start,
                match_end,
                bytes@.len() as int,
            ),
            line_wf(r),
    {
        let len = bytes.len();
        if len < MAX_LENGTH {
            let all_bytes = copy_range(bytes, 0, len);
            proof {
                assert(all_bytes@ =~= bytes@);
            }
            Self {
                kind,
                num: line_number,
                bytes: all_bytes,
                truncated: false,
                match_start,
                match_end,
            }
        } else {
            let mut v = copy_range(bytes, 0, MAX_PREFIX_LENGTH);
            v.push(46u8);
            v.push(46u8);
            v.push(46u8);
            let suffix = copy_range(bytes, len - MAX_SUFFIX_LENGTH, len);
            let mut i: usize = 0;
            while i < suffix.len()
                invariant
                    i <= suffix@.len(),
                    v@ == bytes@.subrange(0, MAX_PREFIX_LENGTH as int) + seq![46u8, 46u8, 46u8]
                        + suffix@.subrange(0, i as int),
                decreases suffix@.len() - i,
            {
                let x = suffix[i];
                v.push(x);
                proof {
                    assert(v@ =~= bytes@.subrange(0, MAX_PREFIX_LENGTH as int)
                        + seq![46u8, 46u8, 46u8] + suffix@.subrange(0, i + 1 as int));
                }
                i = i + 1;
            }
            proof {
                assert(suffix@.subrange(0, suffix@.len() as int) =~= suffix@);
                assert(v@ =~= spec_truncate_bytes(bytes@));
            }
            let keep = match (match_start, match_end) {
                (Some(s), Some(e)) => e <= MAX_PREFIX_LENGTH,
                _ => false,
            };
            Self {
                kind,
                num: line_number,
                bytes: v,
                truncated: true,
                match_start: if keep {
                    match_start
                } else {
                    None
                },
                match_end: if keep {
                    match_end
                } else {
                    None
                },
            }
        }
    }

    /// Creates a context line, which carries no match offsets.
    pub fn without_match(kind: ContentKind, line_number: u64, bytes: &[u8]) -> (r: Self)
        ensures
            r.kind == kind,
            r.num == line_number,
            r.bytes@ == spec_truncate_bytes(bytes@),
            r.truncated == (bytes@.len() >= MAX_LENGTH),
            r.match_start is None,
            r.match_end is None,
            line_wf(r),
    {
        Self::new(kind, line_number, bytes, None, None)
    }
}

/// A maximal run of matched lines and their context: one match group.
#[derive(Clone, Debug)]
pub struct ContentMatch {
    pub lines: Vec<ContentLine>,
}

impl ContentMatch {
    /// Creates a new content match with provided lines.
    pub fn new(lines: Vec<ContentLine>) -> (r: Self)
        ensures
            r.lines == lines,
    {
        Self { lines }
    }
}

/// All match groups found in one file's content.
#[derive(Clone, Debug)]
pub struct ContentItem {
    pub path: String,
    pub ext: Extension,
    pub matches: Vec<ContentMatch>,
}

impl ContentItem {
    /// Creates a new content item.
    pub fn new(path: String, ext: Extension, matches: Vec<ContentMatch>) -> (r: Self)
        ensures
            r.path == path,
            r.ext == ext,
            r.matches == matches,
    {
        Self { path, ext, matches }
    }
}

/// Number of matches found: `Exact` when the count stayed within its cap,
/// `AtLeast` when the cap was exceeded and the true total may be higher.
#[derive(Clone, Copy, Debug, PartialEq, Eq, Structural)]
pub enum Matched {
    Exact(usize),
    AtLeast(usize),
}

/// General search result that has file matches and content matches, and
/// records whether the cache-backed walker served the search.
#[derive(Clone, Debug)]
pub struct SearchResult {
    pub used_cache: bool,
    pub files: Vec<FileItem>,
    pub file_matches: Matched,
    pub content: Vec<ContentItem>,
    pub content_matches: Matched,
}

impl SearchResult {
    /// Creates a new search result.
    pub fn new(
        files: Vec<FileItem>,
        file_matches: Matched,
        content: Vec<ContentItem>,
        content_matches: Matched,
        used_cache: bool,
    ) -> (r: Self)
        ensures
            r.files == files,
            r.file_matches == file_matches,
            r.content == content,
            r.content_matches == content_matches,
            r.used_cache == used_cache,
    {
        Self { used_cache, files, file_matches, content, content_matches }
    }
}

} // verus!
