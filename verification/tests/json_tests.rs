use codesearch::collect::Collector;
use codesearch::ext::Extension;
use codesearch::json::{matched_from_parts, report_json};
use codesearch::report::{ContentItem, FileItem, Matched, SearchResult};
use codesearch::search::{assemble_result, build_matcher};

fn parse(r: &SearchResult) -> serde_json::Value {
    let bytes = report_json(r);
    let text = String::from_utf8(bytes).expect("writer emits UTF-8");
    serde_json::from_str(&text).expect("writer emits valid JSON")
}

fn content_hit(path: &str, lines: &[(u64, &str)]) -> ContentItem {
    let m = build_matcher("foo", false).unwrap();
    let mut c = Collector::new(path.to_string(), m, Extension::Rs);
    for (n, text) in lines {
        assert_eq!(c.matched(Some(*n), text.as_bytes()), Ok(true));
        assert!(c.context_break(0));
    }
    c.finish().unwrap()
}

#[test]
fn empty_report_serializes_exactly() {
    let r = assemble_result(Vec::new(), Vec::new(), 0, false);
    let bytes = report_json(&r);
    let expected = "{\"used_cache\":false,\"files\":[],\"file_matches\":{\"count\":0,\"match\":\"exact\"},\"content\":[],\"content_matches\":{\"count\":0,\"match\":\"exact\"}}";
    assert_eq!(String::from_utf8(bytes).unwrap(), expected);
}

#[test]
fn report_round_trips_structurally() {
    let files = vec![
        FileItem::new("src/a.rs".to_string(), Extension::Rs),
        FileItem::new("b.py".to_string(), Extension::Py),
    ];
    let content = vec![
        content_hit("src/a.rs", &[(3, "foo bar"), (17, "more foo")]),
        content_hit("c.txt", &[(1, "foo")]),
    ];
    let r = assemble_result(files, content, 3, false);
    let v = parse(&r);

    assert_eq!(v["used_cache"].as_bool(), Some(false));

    // files
    let files_v = v["files"].as_array().unwrap();
    assert_eq!(files_v.len(), r.files.len());
    for (fv, f) in files_v.iter().zip(r.files.iter()) {
        assert_eq!(fv["path"].as_str().unwrap(), f.path);
    }
    assert_eq!(files_v[0]["ext"].as_str().unwrap(), "rs");
    assert_eq!(files_v[1]["ext"].as_str().unwrap(), "py");

    // count markers deserialize back to the same markers
    for (field, m) in [("file_matches", r.file_matches), ("content_matches", r.content_matches)] {
        let count = v[field]["count"].as_u64().unwrap() as usize;
        let exact = v[field]["match"].as_str().unwrap() == "exact";
        assert_eq!(matched_from_parts(count, exact), m);
    }
    assert_eq!(v["file_matches"]["count"].as_u64(), Some(2));
    assert_eq!(v["file_matches"]["match"].as_str(), Some("exact"));

    // content hits
    let content_v = v["content"].as_array().unwrap();
    assert_eq!(content_v.len(), r.content.len());
    for (cv, c) in content_v.iter().zip(r.content.iter()) {
        assert_eq!(cv["path"].as_str().unwrap(), c.path);
        let groups = cv["matches"].as_array().unwrap();
        assert_eq!(groups.len(), c.matches.len());
        for (gv, g) in groups.iter().zip(c.matches.iter()) {
            let lines = gv["lines"].as_array().unwrap();
            assert_eq!(lines.len(), g.lines.len());
            for (lv, l) in lines.iter().zip(g.lines.iter()) {
                assert_eq!(lv["kind"].as_str(), Some("match"));
                assert_eq!(lv["num"].as_u64(), Some(l.num));
                assert_eq!(
                    lv["bytes"].as_str().unwrap().as_bytes(),
                    l.bytes.as_slice()
                );
                assert_eq!(lv["truncated"].as_bool(), Some(l.truncated));
            }
        }
    }
}

#[test]
fn special_characters_survive_the_trip() {
    let path = "dir\\sub/\"quoted\"\tname\n.rs";
    let files = vec![FileItem::new(path.to_string(), Extension::Rs)];
    let r = assemble_result(files, Vec::new(), 0, true);
    let v = parse(&r);
    assert_eq!(v["files"][0]["path"].as_str().unwrap(), path);
    assert_eq!(v["used_cache"].as_bool(), Some(true));
}

#[test]
fn numbers_are_written_in_decimal() {
    let content = vec![content_hit("a.rs", &[(1, "foo"), (90074, "foo too")])];
    let r = assemble_result(Vec::new(), content, 2, false);
    let v = parse(&r);
    let groups = v["content"][0]["matches"].as_array().unwrap();
    assert_eq!(groups[0]["lines"][0]["num"].as_u64(), Some(1));
    assert_eq!(groups[1]["lines"][0]["num"].as_u64(), Some(90074));
}

#[test]
fn invalid_utf8_bytes_are_replaced_in_the_output() {
    // the stored bytes keep the raw line; the JSON string carries the
    // lossy form, so this is the one place the trip is not exact
    let m = build_matcher("foo", false).unwrap();
    let mut c = Collector::new("a.rs".to_string(), m, Extension::Rs);
    let mut line = b"foo ".to_vec();
    line.push(0xff);
    assert_eq!(c.matched(Some(1), &line), Ok(true));
    let item = c.finish().unwrap();
    let r = assemble_result(Vec::new(), vec![item], 1, false);
    let v = parse(&r);
    assert_eq!(
        v["content"][0]["matches"][0]["lines"][0]["bytes"].as_str(),
        Some("foo \u{fffd}")
    );
}
