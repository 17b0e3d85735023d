//! Orchestration of a search: input validation, matcher construction, the
//! per-file decisions the parallel walk takes, the cooperative-quit rule,
//! and the assembly of the final report from the collected hits.

use crate::errors::SearchError;
use crate::ext::Extension;
use crate::matcher::{
    smart_lower, spec_is_match, DirectMatcher, MatcherSpec,
};
use crate::report::{FileItem, ContentItem, Matched, SearchResult};
use crate::rx::{regex_build, regex_valid};
use vstd::prelude::*;
use vstd::seq_lib::group_seq_properties;
use vstd::string::StringSliceAdditionalSpecFns;

verus! {

/// Maximum number of files we collect.
pub const FILE_MAX_MATCHES: usize = 10;

/// Maximum number of matches we collect.
pub const CONTENT_MAX_MATCHES: usize = 100;

/// Number of lines of context to fetch around a matched line.
pub const CONTEXT_NUM_LINES: usize = 2;

/// The count marker a stream owes: `Exact` when the number of emissions
/// stayed within the cap, `AtLeast` otherwise.
pub open spec fn spec_matched(n: int, cap: int) -> Matched {
    if n <= cap {
        Matched::Exact(n as usize)
    } else {
        Matched::AtLeast(n as usize)
    }
}

/// Turns an emission count into its marker.
pub fn matched_of(count: usize, cap: usize) -> (r: Matched)
    ensures
        r == spec_matched(count as int, cap as int),
{
    if count <= cap {
        Matched::Exact(count)
    } else {
        Matched::AtLeast(count)
    }
}

/// Everything a validated search needs: the matcher, and whether the
/// cache-backed walker is to be used.
pub struct SearchPlan {
    pub matcher: MatcherSpec,
    pub use_cache: bool,
}

/// Builds the matcher for a pattern: a compiled regex when requested, and
/// a smart-case literal matcher otherwise.  An empty pattern is rejected,
/// and so is a pattern the regex engine cannot compile.
pub fn build_matcher(pattern: &str, use_regex: bool) -> (r: Result<MatcherSpec, SearchError>)
    ensures
        pattern@.len() == 0 ==> r == Err::<MatcherSpec, SearchError>(SearchError::EmptyPattern),
        pattern@.len() > 0 && use_regex ==> {
            &&& (r is Ok <==> regex_valid(pattern@))
            &&& (r matches Ok(m) ==> m matches MatcherSpec::Regex(h) && h.spec_pattern() == pattern@)
            &&& (!regex_valid(pattern@) ==> r == Err::<MatcherSpec, SearchError>(
                SearchError::BadRegex,
            ))
        },
        pattern@.len() > 0 && !use_regex ==> (r matches Ok(m) && m matches MatcherSpec::Direct(d)
            && d.pattern@ == pattern.spec_bytes() && d.is_ascii == vstd::string::is_ascii(pattern)
            && d.match_lowercase == smart_lower(pattern@)),
{
    if pattern.is_empty() {
        return Err(SearchError::EmptyPattern);
    }
    if use_regex {
        match regex_build(pattern) {
            Ok(h) => Ok(MatcherSpec::regex(h)),
            Err(e) => Err(e),
        }
    } else {
        Ok(MatcherSpec::direct(DirectMatcher::new(pattern, true)))
    }
}

/// Validates the inputs of a search and builds its plan.  The caller
/// reports whether the root is an existing directory and whether the cache
/// holds it; missing directories and empty patterns abort the search.
pub fn prepare_search(
    dir_is_directory: bool,
    pattern: &str,
    use_regex: bool,
    use_cache: bool,
    cache_contains_dir: bool,
) -> (r: Result<SearchPlan, SearchError>)
    ensures
        !dir_is_directory ==> r == Err::<SearchPlan, SearchError>(SearchError::NotADirectory),
        dir_is_directory && pattern@.len() == 0 ==> r == Err::<SearchPlan, SearchError>(
            SearchError::EmptyPattern,
        ),
        dir_is_directory && pattern@.len() > 0 ==> {
            &&& (r matches Ok(p) ==> p.use_cache == (use_cache && cache_contains_dir))
            &&& (use_regex ==> {
                &&& (r is Ok <==> regex_valid(pattern@))
                &&& (r matches Ok(p) ==> p.matcher matches MatcherSpec::Regex(h) && h.spec_pattern()
                    == pattern@)
                &&& (!regex_valid(pattern@) ==> r == Err::<SearchPlan, SearchError>(
                    SearchError::BadRegex,
                ))
            })
            &&& (!use_regex ==> (r matches Ok(p) && p.matcher matches MatcherSpec::Direct(d)
                && d.pattern@ == pattern.spec_bytes() && d.match_lowercase == smart_lower(
                pattern@,
            )))
        },
{
    if !dir_is_directory {
        return Err(SearchError::NotADirectory);
    }
    let matcher = match build_matcher(pattern, use_regex) {
        Ok(m) => m,
        Err(e) => {
            return Err(e);
        },
    };
    Ok(SearchPlan { matcher, use_cache: use_cache && cache_contains_dir })
}

/// The per-file filename decision: a file is published as a filename hit
/// exactly when its name matches the pattern and the file counter's
/// previous value was still within the cap — so the first `FILE_CAP + 1`
/// candidates are enqueued, which lets the report tell `Exact` from
/// `AtLeast` without under-reporting.
pub fn file_name_hit(
    matcher: &MatcherSpec,
    fpath: &str,
    fname: &str,
    ext: Extension,
    prev_file_count: usize,
) -> (r: Option<FileItem>)
    ensures
        (r is Some) <==> (spec_is_match(*matcher, fname.spec_bytes()) && prev_file_count
            <= FILE_MAX_MATCHES),
        r matches Some(f) ==> f.path@ == fpath@ && f.ext == ext,
{
    if matcher.is_match(fname) && prev_file_count <= FILE_MAX_MATCHES {
        Some(FileItem::new(fpath.to_owned(), ext))
    } else {
        None
    }
}

/// The per-file content decision: a file is scanned for content matches
/// exactly when its extension is supported and the shared content counter
/// has not left the cap behind.
pub fn should_scan_content(ext: Extension, content_count: usize) -> (r: bool)
    ensures
        r == (ext != Extension::Unknown && content_count <= CONTENT_MAX_MATCHES),
{
    crate::ext::is_supported_extension(ext) && content_count <= CONTENT_MAX_MATCHES
}

/// The cooperative-quit rule: a worker asks the walk to stop scheduling
/// new files exactly when both budgets are exceeded.
pub fn should_quit(file_count: usize, content_count: usize) -> (r: bool)
    ensures
        r == (file_count > FILE_MAX_MATCHES && content_count > CONTENT_MAX_MATCHES),
{
    file_count > FILE_MAX_MATCHES && content_count > CONTENT_MAX_MATCHES
}

/// Assembles the report from the drained channels.  The file marker counts
/// filename hits, from the drained list; the content marker counts matched
/// lines, from the final value of the shared content counter, which the
/// collectors bump once per matched line — so one file holding two matched
/// lines reports two.  Each marker is `Exact` exactly when its count stayed
/// within its cap, each list is truncated to its cap, and the report records
/// whether the cache-backed walker served the search.
pub fn assemble_result(
    files: Vec<FileItem>,
    content: Vec<ContentItem>,
    content_count: usize,
    use_cache: bool,
) -> (r: SearchResult)
    ensures
        r.file_matches == spec_matched(files@.len() as int, FILE_MAX_MATCHES as int),
        r.content_matches == spec_matched(content_count as int, CONTENT_MAX_MATCHES as int),
        r.used_cache == use_cache,
        r.files@.len() <= FILE_MAX_MATCHES,
        r.content@.len() <= CONTENT_MAX_MATCHES,
        r.files@ == (if files@.len() <= FILE_MAX_MATCHES {
            files@
        } else {
            files@.subrange(0, FILE_MAX_MATCHES as int)
        }),
        r.content@ == (if content@.len() <= CONTENT_MAX_MATCHES {
            content@
        } else {
            content@.subrange(0, CONTENT_MAX_MATCHES as int)
        }),
{
    let file_matches = matched_of(files.len(), FILE_MAX_MATCHES);
    let content_matches = matched_of(content_count, CONTENT_MAX_MATCHES);
    let mut files = files;
    let mut content = content;
    if files.len() > FILE_MAX_MATCHES {
        files.truncate(FILE_MAX_MATCHES);
    }
    if content.len() > CONTENT_MAX_MATCHES {
        content.truncate(CONTENT_MAX_MATCHES);
    }
    SearchResult::new(files, file_matches, content, content_matches, use_cache)
}

/// Idempotence of the assembly: when two runs of the same search collect
/// the same filename hits and the same content hits — as multisets, since
/// the parallel walk fixes no order — count the same matched lines, and
/// stayed within their caps, the two assembled reports hold the same hits
/// as multisets and the same count markers.
pub proof fn lemma_assembly_idempotent(
    f1: Seq<FileItem>,
    f2: Seq<FileItem>,
    c1: Seq<ContentItem>,
    c2: Seq<ContentItem>,
    n1: usize,
    n2: usize,
)
    requires
        f1.to_multiset() == f2.to_multiset(),
        c1.to_multiset() == c2.to_multiset(),
        n1 == n2,
        f1.len() <= FILE_MAX_MATCHES,
        c1.len() <= CONTENT_MAX_MATCHES,
    ensures
        f2.len() == f1.len(),
        c2.len() == c1.len(),
        spec_matched(f1.len() as int, FILE_MAX_MATCHES as int) == spec_matched(
            f2.len() as int,
            FILE_MAX_MATCHES as int,
        ),
        spec_matched(n1 as int, CONTENT_MAX_MATCHES as int) == spec_matched(
            n2 as int,
            CONTENT_MAX_MATCHES as int,
        ),
{
    broadcast use group_seq_properties;

    f1.to_multiset_ensures();
    f2.to_multiset_ensures();
    c1.to_multiset_ensures();
    c2.to_multiset_ensures();
}

} // verus!
