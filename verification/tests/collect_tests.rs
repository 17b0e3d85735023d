use codesearch::collect::Collector;
use codesearch::errors::SearchError;
use codesearch::ext::Extension;
use codesearch::report::{ContentKind, ContentLine};
use codesearch::search::build_matcher;

fn new_collector(pattern: &str) -> Collector {
    let m = build_matcher(pattern, false).unwrap();
    Collector::new(String::from("a.txt"), m, Extension::Txt)
}

#[test]
fn two_adjacent_matches_form_one_group() {
    // a short file: both lines match, no context lines exist
    let mut c = new_collector("hello");
    assert_eq!(c.matched(Some(1), b"Hello World"), Ok(true));
    assert_eq!(c.matched(Some(2), b"hello world"), Ok(true));
    let item = c.finish().unwrap();
    assert_eq!(item.path, "a.txt");
    assert_eq!(item.ext, Extension::Txt);
    assert_eq!(item.matches.len(), 1);
    let lines = &item.matches[0].lines;
    assert_eq!(lines.len(), 2);
    assert_eq!(lines[0].kind, ContentKind::Match);
    assert_eq!(lines[0].num, 1);
    assert_eq!(lines[0].match_start, Some(0));
    assert_eq!(lines[0].match_end, Some(5));
    assert_eq!(lines[1].num, 2);
}

#[test]
fn case_sensitive_pattern_matches_single_line() {
    let mut c = new_collector("Hello");
    assert_eq!(c.matched(Some(1), b"Hello World"), Ok(true));
    let item = c.finish().unwrap();
    assert_eq!(item.matches.len(), 1);
    assert_eq!(item.matches[0].lines.len(), 1);
    assert_eq!(item.matches[0].lines[0].num, 1);
}

#[test]
fn context_break_separates_groups() {
    // matches on lines 3 and 15 of a 20-line file, two context lines each
    let mut c = new_collector("foo");
    assert_eq!(c.context(ContentKind::Before, Some(1), b"line 1"), Ok(true));
    assert_eq!(c.context(ContentKind::Before, Some(2), b"line 2"), Ok(true));
    assert_eq!(c.matched(Some(3), b"has foo inside"), Ok(true));
    assert_eq!(c.context(ContentKind::After, Some(4), b"line 4"), Ok(true));
    assert_eq!(c.context(ContentKind::After, Some(5), b"line 5"), Ok(true));
    assert!(c.context_break(1));
    assert_eq!(c.context(ContentKind::Before, Some(13), b"line 13"), Ok(true));
    assert_eq!(c.context(ContentKind::Before, Some(14), b"line 14"), Ok(true));
    assert_eq!(c.matched(Some(15), b"foo again"), Ok(true));
    assert_eq!(c.context(ContentKind::After, Some(16), b"line 16"), Ok(true));
    assert_eq!(c.context(ContentKind::After, Some(17), b"line 17"), Ok(true));
    let item = c.finish().unwrap();
    assert_eq!(item.matches.len(), 2);
    let nums1: Vec<u64> = item.matches[0].lines.iter().map(|l| l.num).collect();
    assert_eq!(nums1, vec![1, 2, 3, 4, 5]);
    let kinds1: Vec<ContentKind> = item.matches[0].lines.iter().map(|l| l.kind).collect();
    assert_eq!(
        kinds1,
        vec![
            ContentKind::Before,
            ContentKind::Before,
            ContentKind::Match,
            ContentKind::After,
            ContentKind::After
        ]
    );
    let nums2: Vec<u64> = item.matches[1].lines.iter().map(|l| l.num).collect();
    assert_eq!(nums2, vec![13, 14, 15, 16, 17]);
}

#[test]
fn groups_come_in_ascending_first_line_order() {
    let mut c = new_collector("foo");
    assert_eq!(c.matched(Some(2), b"foo"), Ok(true));
    assert!(c.context_break(1));
    assert_eq!(c.matched(Some(9), b"foo"), Ok(true));
    assert!(c.context_break(2));
    assert_eq!(c.matched(Some(40), b"foo"), Ok(true));
    let item = c.finish().unwrap();
    assert_eq!(item.matches.len(), 3);
    let firsts: Vec<u64> = item.matches.iter().map(|m| m.lines[0].num).collect();
    assert_eq!(firsts, vec![2, 9, 40]);
    assert!(item.matches.iter().all(|m| !m.lines.is_empty()));
}

#[test]
fn no_matches_yield_no_hit() {
    let c = new_collector("foo");
    assert!(c.finish().is_none());
}

#[test]
fn missing_line_numbers_are_an_error() {
    let mut c = new_collector("foo");
    assert_eq!(c.matched(None, b"foo"), Err(SearchError::LineNumbersDisabled));
    let mut c = new_collector("foo");
    assert_eq!(
        c.context(ContentKind::Before, None, b"x"),
        Err(SearchError::LineNumbersDisabled)
    );
}

#[test]
fn exceeded_budget_cuts_the_file_short() {
    let mut c = new_collector("foo");
    assert_eq!(c.matched(Some(1), b"foo"), Ok(true));
    // over the cap: the break refuses and flushes nothing
    assert!(!c.context_break(101));
    // the pending group still reaches the hit through the final flush
    let item = c.finish().unwrap();
    assert_eq!(item.matches.len(), 1);
}

#[test]
fn long_line_is_truncated_to_the_window() {
    // one 500-byte line with the match at offset 300
    let mut line = vec![b'x'; 300];
    line.extend_from_slice(b"foo");
    line.extend_from_slice(&vec![b'y'; 197]);
    assert_eq!(line.len(), 500);
    let mut c = new_collector("foo");
    assert_eq!(c.matched(Some(1), &line), Ok(true));
    let item = c.finish().unwrap();
    let stored = &item.matches[0].lines[0];
    assert_eq!(stored.bytes.len(), 140);
    assert!(stored.truncated);
    // the match lies outside the preserved prefix, so the offsets are gone
    assert_eq!(stored.match_start, None);
    assert_eq!(stored.match_end, None);
    assert_eq!(&stored.bytes[118..123], b"xx...");
    assert_eq!(stored.bytes[123..140], *vec![b'y'; 17]);
}

#[test]
fn match_inside_prefix_keeps_offsets() {
    let mut line = vec![b'a'; 500];
    line[5] = b'f';
    line[6] = b'o';
    line[7] = b'o';
    let l = ContentLine::new(ContentKind::Match, 1, &line, Some(5), Some(8));
    assert!(l.truncated);
    assert_eq!(l.bytes.len(), 140);
    assert_eq!(l.match_start, Some(5));
    assert_eq!(l.match_end, Some(8));
}

#[test]
fn encoding_failure_surfaces_from_matched() {
    let m = build_matcher("\u{fc}ber", false).unwrap();
    let mut c = Collector::new(String::from("a.txt"), m, Extension::Txt);
    let bad = [0xffu8, 0xff, 0xff, 0xff, 0xff, 0xff, 0xff, 0xff];
    assert_eq!(c.matched(Some(1), &bad), Err(SearchError::Encoding));
}

#[test]
fn non_ascii_smart_case_match_stores_no_offsets() {
    // the match is found in the lowercased forms, so no offsets locate it
    // within the stored line bytes
    let m = build_matcher("\u{fc}ber", false).unwrap();
    let mut c = Collector::new(String::from("a.txt"), m, Extension::Txt);
    assert_eq!(c.matched(Some(1), "X\u{dc}BERY".as_bytes()), Ok(true));
    let item = c.finish().unwrap();
    let l = &item.matches[0].lines[0];
    assert_eq!(l.kind, ContentKind::Match);
    assert_eq!(l.match_start, None);
    assert_eq!(l.match_end, None);
}

#[test]
fn truncation_boundary_is_the_window_length() {
    let just_under = vec![b'a'; 139];
    let l = ContentLine::new(ContentKind::Before, 1, &just_under, None, None);
    assert!(!l.truncated);
    assert_eq!(l.bytes.len(), 139);
    let at_limit = vec![b'a'; 140];
    let l = ContentLine::new(ContentKind::Before, 1, &at_limit, None, None);
    assert!(l.truncated);
    assert_eq!(l.bytes.len(), 140);
    assert_eq!(&l.bytes[120..123], b"...");
}
