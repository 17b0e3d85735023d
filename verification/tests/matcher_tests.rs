use codesearch::errors::SearchError;
use codesearch::ext::{is_supported_extension, parse_ext, Extension};
use codesearch::search::build_matcher;

#[test]
fn empty_pattern_is_rejected() {
    let r = build_matcher("", false);
    assert!(matches!(r, Err(SearchError::EmptyPattern)));
    let r = build_matcher("", true);
    assert!(matches!(r, Err(SearchError::EmptyPattern)));
}

#[test]
fn bad_regex_is_rejected() {
    let r = build_matcher("(", true);
    assert!(matches!(r, Err(SearchError::BadRegex)));
}

#[test]
fn smart_case_literal_matches_both_cases() {
    let m = build_matcher("hello", false).unwrap();
    assert!(m.is_match("Hello World"));
    assert!(m.is_match("hello world"));
    assert!(m.is_match("say HELLO"));
    assert!(!m.is_match("help"));
}

#[test]
fn uppercase_literal_is_case_sensitive() {
    let m = build_matcher("Hello", false).unwrap();
    assert!(m.is_match("say Hello"));
    assert!(!m.is_match("hello world"));
    assert!(!m.is_match("HELLO"));
}

#[test]
fn punctuation_keeps_smart_case() {
    let m = build_matcher("foo_bar!", false).unwrap();
    assert!(m.is_match("FOO_BAR! here"));
}

#[test]
fn find_reports_first_occurrence() {
    let m = build_matcher("ab", false).unwrap();
    let r = m.find(b"xxabyab").unwrap();
    assert_eq!(r, Some((2, 4)));
    let r = m.find(b"zzz").unwrap();
    assert_eq!(r, None);
}

#[test]
fn find_smart_case_offsets() {
    let m = build_matcher("hello", false).unwrap();
    let r = m.find(b"Hello World").unwrap();
    assert_eq!(r, Some((0, 5)));
}

#[test]
fn pattern_longer_than_haystack_never_matches() {
    let m = build_matcher("abcdef", false).unwrap();
    assert_eq!(m.find(b"abc").unwrap(), None);
}

#[test]
fn non_ascii_lowercase_pattern_is_case_insensitive() {
    let m = build_matcher("\u{fc}ber", false).unwrap();
    let hay = "X\u{dc}BERY";
    assert!(m.is_match(hay));
    let r = m.find(hay.as_bytes()).unwrap();
    // offsets fall in the lowercased form: one byte of `x`, then the match
    assert_eq!(r, Some((1, 6)));
}

#[test]
fn non_ascii_pattern_on_invalid_utf8_fails_with_encoding() {
    let m = build_matcher("\u{fc}ber", false).unwrap();
    let bad = [0xffu8, 0xff, 0xff, 0xff, 0xff, 0xff, 0xff, 0xff];
    let r = m.find(&bad);
    assert!(matches!(r, Err(SearchError::Encoding)));
}

#[test]
fn regex_matcher_finds_and_matches() {
    let m = build_matcher("h.llo", true).unwrap();
    assert!(m.is_regex());
    assert!(m.is_match("say hallo"));
    assert!(!m.is_match("say hilla"));
    let r = m.find(b"xx hollo").unwrap();
    assert_eq!(r, Some((3, 8)));
}

#[test]
fn regex_smart_case_applies() {
    let m = build_matcher("hello", true).unwrap();
    assert!(m.is_match("Hello World"));
    let m = build_matcher("Hello", true).unwrap();
    assert!(!m.is_match("hello world"));
}

#[test]
fn cloned_matchers_behave_the_same() {
    // workers hold per-thread clones of the matcher
    let m = build_matcher("h.llo", true).unwrap();
    let m2 = m.clone();
    assert!(m2.is_match("say hallo"));
    assert_eq!(m2.find(b"xx hollo").unwrap(), Some((3, 8)));
    let d = build_matcher("hello", false).unwrap();
    let d2 = d.clone();
    assert!(d2.is_match("Hello World"));
}

#[test]
fn extensions_parse_to_tags() {
    assert_eq!(parse_ext("rs"), Extension::Rs);
    assert_eq!(parse_ext("c"), Extension::C);
    assert_eq!(parse_ext("cpp"), Extension::Cpp);
    assert_eq!(parse_ext("src"), Extension::Src);
    assert_eq!(parse_ext("txt"), Extension::Txt);
    assert_eq!(parse_ext(""), Extension::Unknown);
    assert_eq!(parse_ext("weird"), Extension::Unknown);
}

#[test]
fn only_unknown_is_unsupported() {
    assert!(is_supported_extension(Extension::Rs));
    assert!(is_supported_extension(Extension::Src));
    assert!(!is_supported_extension(Extension::Unknown));
}
