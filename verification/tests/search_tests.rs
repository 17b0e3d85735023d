use codesearch::errors::SearchError;
use codesearch::ext::Extension;
use codesearch::json::{kind_label, matched_from_parts, matched_parts};
use codesearch::report::{ContentItem, ContentKind, FileItem, Matched};
use codesearch::search::{
    assemble_result, build_matcher, file_name_hit, matched_of, prepare_search,
    should_quit, should_scan_content, CONTENT_MAX_MATCHES, FILE_MAX_MATCHES,
};

#[test]
fn missing_directory_aborts() {
    let r = prepare_search(false, "foo", false, false, false);
    assert!(matches!(r, Err(SearchError::NotADirectory)));
}

#[test]
fn empty_pattern_aborts() {
    let r = prepare_search(true, "", false, false, false);
    assert!(matches!(r, Err(SearchError::EmptyPattern)));
}

#[test]
fn cache_is_used_only_when_requested_and_present() {
    let p = prepare_search(true, "foo", false, true, true).unwrap();
    assert!(p.use_cache);
    let p = prepare_search(true, "foo", false, true, false).unwrap();
    assert!(!p.use_cache);
    let p = prepare_search(true, "foo", false, false, true).unwrap();
    assert!(!p.use_cache);
}

#[test]
fn file_hit_needs_a_name_match_and_budget() {
    let m = build_matcher("hit", false).unwrap();
    let r = file_name_hit(&m, "/tmp/hit_1.src", "hit_1.src", Extension::Src, 0);
    let f = r.unwrap();
    assert_eq!(f.path, "/tmp/hit_1.src");
    assert_eq!(f.ext, Extension::Src);
    // the first FILE_MAX_MATCHES + 1 candidates are enqueued
    assert!(file_name_hit(&m, "/tmp/hit_1.src", "hit_1.src", Extension::Src, 10).is_some());
    assert!(file_name_hit(&m, "/tmp/hit_1.src", "hit_1.src", Extension::Src, 11).is_none());
    assert!(file_name_hit(&m, "/tmp/other.rs", "other.rs", Extension::Rs, 0).is_none());
}

#[test]
fn content_scan_needs_support_and_budget() {
    assert!(should_scan_content(Extension::Rs, 0));
    assert!(should_scan_content(Extension::Rs, CONTENT_MAX_MATCHES));
    assert!(!should_scan_content(Extension::Rs, CONTENT_MAX_MATCHES + 1));
    assert!(!should_scan_content(Extension::Unknown, 0));
}

#[test]
fn quit_needs_both_budgets_exceeded() {
    assert!(should_quit(FILE_MAX_MATCHES + 1, CONTENT_MAX_MATCHES + 1));
    assert!(!should_quit(FILE_MAX_MATCHES, CONTENT_MAX_MATCHES + 1));
    assert!(!should_quit(FILE_MAX_MATCHES + 1, CONTENT_MAX_MATCHES));
    assert!(!should_quit(0, 0));
}

#[test]
fn counts_switch_from_exact_to_atleast_at_the_cap() {
    assert_eq!(matched_of(0, 10), Matched::Exact(0));
    assert_eq!(matched_of(10, 10), Matched::Exact(10));
    assert_eq!(matched_of(11, 10), Matched::AtLeast(11));
    assert_eq!(matched_of(250, 100), Matched::AtLeast(250));
}

#[test]
fn small_result_is_exact_and_untruncated() {
    let files = vec![
        FileItem::new(String::from("a"), Extension::Rs),
        FileItem::new(String::from("b"), Extension::C),
    ];
    let r = assemble_result(files, Vec::new(), 0, false);
    assert_eq!(r.files.len(), 2);
    assert_eq!(r.file_matches, Matched::Exact(2));
    assert_eq!(r.content.len(), 0);
    assert_eq!(r.content_matches, Matched::Exact(0));
    assert!(!r.used_cache);
    assert_eq!(r.files[0].path, "a");
    assert_eq!(r.files[1].path, "b");
}

#[test]
fn overflowing_result_is_truncated_but_not_under_reported() {
    let mut files = Vec::new();
    for i in 0..50 {
        files.push(FileItem::new(format!("hit_{}.src", i), Extension::Src));
    }
    let content: Vec<ContentItem> = Vec::new();
    let r = assemble_result(files, content, 0, false);
    assert_eq!(r.files.len(), FILE_MAX_MATCHES);
    assert_eq!(r.file_matches, Matched::AtLeast(50));
    // the kept entries are the first ones collected
    assert_eq!(r.files[0].path, "hit_0.src");
    assert_eq!(r.files[9].path, "hit_9.src");
}

#[test]
fn same_hits_give_the_same_report() {
    let mk = |names: &[&str]| -> Vec<FileItem> {
        names.iter().map(|n| FileItem::new(n.to_string(), Extension::Rs)).collect()
    };
    let r1 = assemble_result(mk(&["a", "b", "c"]), Vec::new(), 5, false);
    let r2 = assemble_result(mk(&["c", "a", "b"]), Vec::new(), 5, false);
    assert_eq!(r1.file_matches, r2.file_matches);
    assert_eq!(r1.files.len(), r2.files.len());
    let mut p1: Vec<String> = r1.files.iter().map(|f| f.path.clone()).collect();
    let mut p2: Vec<String> = r2.files.iter().map(|f| f.path.clone()).collect();
    p1.sort();
    p2.sort();
    assert_eq!(p1, p2);
}

#[test]
fn overshoot_pipeline_never_under_reports() {
    // 50 files whose names all match: the counter passes the cap, the
    // first FILE_MAX_MATCHES + 1 hits are enqueued, and the report says
    // the cap was exceeded
    let m = build_matcher("hit", false).unwrap();
    let mut counter: usize = 0;
    let mut files = Vec::new();
    for i in 0..50 {
        let name = format!("hit_{}.src", i);
        if m.is_match(&name) {
            let prev = counter;
            counter += 1;
            if let Some(hit) = file_name_hit(&m, &name, &name, Extension::Src, prev) {
                files.push(hit);
            }
        }
    }
    assert_eq!(files.len(), FILE_MAX_MATCHES + 1);
    let r = assemble_result(files, Vec::new(), 0, false);
    assert_eq!(r.files.len(), FILE_MAX_MATCHES);
    assert_eq!(r.file_matches, Matched::AtLeast(FILE_MAX_MATCHES + 1));
}

#[test]
fn content_marker_counts_matched_lines_not_hits() {
    // one file with two matched lines: the marker says two, though the
    // report holds a single content hit
    let m = build_matcher("hello", false).unwrap();
    let mut c = codesearch::collect::Collector::new("a.txt".to_string(), m, Extension::Txt);
    assert_eq!(c.matched(Some(1), b"Hello World"), Ok(true));
    assert_eq!(c.matched(Some(2), b"hello world"), Ok(true));
    let hit = c.finish().unwrap();
    let r = assemble_result(Vec::new(), vec![hit], 2, false);
    assert_eq!(r.content.len(), 1);
    assert_eq!(r.content_matches, Matched::Exact(2));
}

#[test]
fn content_marker_reports_overshoot_of_the_line_counter() {
    // fifty files of five matches each drive the counter to 250: the
    // marker never under-reports, whatever the number of hits collected
    let m = build_matcher("foo", false).unwrap();
    let mut c = codesearch::collect::Collector::new("hit_0.src".to_string(), m, Extension::Src);
    assert_eq!(c.matched(Some(1), b"foo"), Ok(true));
    let hit = c.finish().unwrap();
    let r = assemble_result(Vec::new(), vec![hit], 250, false);
    assert_eq!(r.content_matches, Matched::AtLeast(250));
}

#[test]
fn the_report_records_cache_use() {
    let r = assemble_result(Vec::new(), Vec::new(), 0, true);
    assert!(r.used_cache);
    let r = assemble_result(Vec::new(), Vec::new(), 0, false);
    assert!(!r.used_cache);
}

#[test]
fn kind_labels_are_lowercase() {
    assert_eq!(kind_label(ContentKind::Before), "before");
    assert_eq!(kind_label(ContentKind::Match), "match");
    assert_eq!(kind_label(ContentKind::After), "after");
}

#[test]
fn matched_encoding_round_trips() {
    for m in [Matched::Exact(0), Matched::Exact(10), Matched::AtLeast(11), Matched::AtLeast(250)] {
        let (count, exact) = matched_parts(m);
        assert_eq!(matched_from_parts(count, exact), m);
    }
    assert_eq!(matched_parts(Matched::Exact(3)), (3, true));
    assert_eq!(matched_parts(Matched::AtLeast(7)), (7, false));
}
