//! The JSON form of a search report.
//!
//! Two fields do not use a plain derived shape: a line's kind is written as
//! a lowercase label, and a count marker is written as a `count`/`match`
//! pair of fields.  Those encodings are defined and proved invertible
//! here.  On top of them, `report_json` writes a whole report as JSON
//! bytes, with its exact output pinned down by `spec_report_json`: paths
//! and line bytes as escaped strings (line bytes through a lossy UTF-8
//! conversion), extensions and kinds as lowercase labels, and the two
//! count markers as `count`/`match` objects.

use crate::ext::Extension;
use crate::report::{ContentItem, ContentKind, ContentLine, ContentMatch, FileItem, Matched,
    SearchResult};
use vstd::prelude::*;
use vstd::string::StringSliceAdditionalSpecFns;
use vstd::utf8::{decode_utf8, encode_utf8, valid_utf8};

verus! {

/// The label a line kind serializes to.
pub open spec fn spec_kind_label(k: ContentKind) -> Seq<char> {
    match k {
        ContentKind::Before => "before"@,
        ContentKind::Match => "match"@,
        ContentKind::After => "after"@,
    }
}

/// The kind a label parses back to.
pub open spec fn spec_parse_kind(s: Seq<char>) -> Option<ContentKind> {
    if s == "before"@ {
        Some(ContentKind::Before)
    } else if s == "match"@ {
        Some(ContentKind::Match)
    } else if s == "after"@ {
        Some(ContentKind::After)
    } else {
        None
    }
}

/// Serializes a line kind to its lowercase label.
pub fn kind_label(k: ContentKind) -> (r: &'static str)
    ensures
        r@ == spec_kind_label(k),
{
    match k {
        ContentKind::Before => "before",
        ContentKind::Match => "match",
        ContentKind::After => "after",
    }
}

/// Round trip of the kind labels: every kind parses back from its label,
/// so the label determines the kind.
pub proof fn lemma_kind_label_roundtrip(k: ContentKind)
    ensures
        spec_parse_kind(spec_kind_label(k)) == Some(k),
{
    reveal_strlit("before");
    reveal_strlit("match");
    reveal_strlit("after");
    assert("match"@ != "before"@) by {
        assert("match"@.len() != "before"@.len());
    }
    assert("after"@ != "before"@) by {
        assert("after"@[0] != "before"@[0]);
    }
    assert("after"@ != "match"@) by {
        assert("after"@[0] != "match"@[0]);
    }
}

/// The `count` and `match` fields a marker serializes to: its count, and
/// whether the marker is `exact` rather than `atleast`.
pub open spec fn spec_matched_parts(m: Matched) -> (usize, bool) {
    match m {
        Matched::Exact(n) => (n, true),
        Matched::AtLeast(n) => (n, false),
    }
}

/// The marker a `count`/`match` pair parses back to.
pub open spec fn spec_matched_from_parts(count: usize, exact: bool) -> Matched {
    if exact {
        Matched::Exact(count)
    } else {
        Matched::AtLeast(count)
    }
}

/// Serializes a marker to its two fields.
pub fn matched_parts(m: Matched) -> (r: (usize, bool))
    ensures
        r == spec_matched_parts(m),
{
    match m {
        Matched::Exact(n) => (n, true),
        Matched::AtLeast(n) => (n, false),
    }
}

/// Deserializes a marker from its two fields.
pub fn matched_from_parts(count: usize, exact: bool) -> (r: Matched)
    ensures
        r == spec_matched_from_parts(count, exact),
{
    if exact {
        Matched::Exact(count)
    } else {
        Matched::AtLeast(count)
    }
}

/// Round trip of the marker encoding: the two fields determine the marker.
pub proof fn lemma_matched_parts_roundtrip(m: Matched)
    ensures
        spec_matched_from_parts(spec_matched_parts(m).0, spec_matched_parts(m).1) == m,
{
}

/// The characters a byte sequence reads as, with invalid UTF-8 replaced.
/// Named after `String::from_utf8_lossy`, whose result depends on the bytes
/// alone.
pub uninterp spec fn lossy_of(b: Seq<u8>) -> Seq<char>;

/// Relies on `String::from_utf8_lossy`: it decodes the bytes, replacing
/// invalid sequences; its result is a function of the bytes alone, and on
/// valid UTF-8 the conversion is the identity.
#[verifier::external_body]
fn utf8_lossy(b: &[u8]) -> (r: String)
    ensures
        r@ == lossy_of(b@),
        valid_utf8(b@) ==> r@ == decode_utf8(b@),
{
    String::from_utf8_lossy(b).into_owned()
}

/// A lowercase hex digit.
pub open spec fn spec_hexd(d: u8) -> u8 {
    if d < 10 {
        (48 + d) as u8
    } else {
        (87 + d) as u8
    }
}

/// What one byte of a JSON string serializes to: quotes and backslashes
/// are escaped, control bytes become `\u00..` escapes, everything else is
/// written as it is.
pub open spec fn esc_byte(b: u8) -> Seq<u8> {
    if b == 34 {
        seq![92u8, 34u8]
    } else if b == 92 {
        seq![92u8, 92u8]
    } else if b < 32 {
        seq![92u8, 117u8, 48u8, 48u8, spec_hexd(b / 16), spec_hexd(b % 16)]
    } else {
        seq![b]
    }
}

/// A whole byte sequence, JSON-escaped.
pub open spec fn spec_escape(s: Seq<u8>) -> Seq<u8>
    decreases s.len(),
{
    if s.len() == 0 {
        Seq::empty()
    } else {
        spec_escape(s.drop_last()) + esc_byte(s.last())
    }
}

/// A JSON string: the escaped bytes between quotes.
pub open spec fn spec_quoted(s: Seq<u8>) -> Seq<u8> {
    seq![34u8] + spec_escape(s) + seq![34u8]
}

/// The decimal digits of a number.
pub open spec fn spec_dec(n: nat) -> Seq<u8>
    decreases n,
{
    if n < 10 {
        seq![(48 + n) as u8]
    } else {
        spec_dec(n / 10) + seq![(48 + (n % 10)) as u8]
    }
}

/// The label bytes of an extension tag.
pub open spec fn spec_ext_bytes(e: Extension) -> Seq<u8> {
    match e {
        Extension::C => seq![99u8],
        Extension::Cpp => seq![99u8, 112u8, 112u8],
        Extension::Go => seq![103u8, 111u8],
        Extension::H => seq![104u8],
        Extension::Java => seq![106u8, 97u8, 118u8, 97u8],
        Extension::Js => seq![106u8, 115u8],
        Extension::Md => seq![109u8, 100u8],
        Extension::Py => seq![112u8, 121u8],
        Extension::Rs => seq![114u8, 115u8],
        Extension::Src => seq![115u8, 114u8, 99u8],
        Extension::Txt => seq![116u8, 120u8, 116u8],
        Extension::Unknown => seq![117u8, 110u8, 107u8, 110u8, 111u8, 119u8, 110u8],
    }
}

/// The label bytes of a line kind.
pub open spec fn spec_kind_bytes(k: ContentKind) -> Seq<u8> {
    match k {
        ContentKind::Before => seq![98u8, 101u8, 102u8, 111u8, 114u8, 101u8],
        ContentKind::Match => seq![109u8, 97u8, 116u8, 99u8, 104u8],
        ContentKind::After => seq![97u8, 102u8, 116u8, 101u8, 114u8],
    }
}

/// `{"path":"..","ext":".."}` for a filename hit.
pub open spec fn spec_file_json(f: FileItem) -> Seq<u8> {
    seq![123u8, 34u8, 112u8, 97u8, 116u8, 104u8, 34u8, 58u8] + spec_quoted(encode_utf8(f.path@))
        + seq![44u8, 34u8, 101u8, 120u8, 116u8, 34u8, 58u8, 34u8] + spec_ext_bytes(f.ext) + seq![
        34u8,
        125u8,
    ]
}

/// A comma-separated list of filename hits.
pub open spec fn spec_files_json(s: Seq<FileItem>) -> Seq<u8>
    decreases s.len(),
{
    if s.len() == 0 {
        Seq::empty()
    } else if s.len() == 1 {
        spec_file_json(s[0])
    } else {
        spec_files_json(s.drop_last()) + seq![44u8] + spec_file_json(s.last())
    }
}

/// `{"count":n,"match":"exact"|"atleast"}` for a count marker.
pub open spec fn spec_matched_json(m: Matched) -> Seq<u8> {
    seq![123u8, 34u8, 99u8, 111u8, 117u8, 110u8, 116u8, 34u8, 58u8] + spec_dec(
        spec_matched_parts(m).0 as nat,
    ) + seq![44u8, 34u8, 109u8, 97u8, 116u8, 99u8, 104u8, 34u8, 58u8, 34u8] + (if spec_matched_parts(
        m,
    ).1 {
        seq![101u8, 120u8, 97u8, 99u8, 116u8]
    } else {
        seq![97u8, 116u8, 108u8, 101u8, 97u8, 115u8, 116u8]
    }) + seq![34u8, 125u8]
}

/// `{"kind":"..","num":n,"bytes":"..","truncated":..}` for one line.
pub open spec fn spec_line_json(l: ContentLine) -> Seq<u8> {
    seq![123u8, 34u8, 107u8, 105u8, 110u8, 100u8, 34u8, 58u8, 34u8] + spec_kind_bytes(l.kind)
        + seq![34u8, 44u8, 34u8, 110u8, 117u8, 109u8, 34u8, 58u8] + spec_dec(l.num as nat) + seq![
        44u8,
        34u8,
        98u8,
        121u8,
        116u8,
        101u8,
        115u8,
        34u8,
        58u8,
    ] + spec_quoted(encode_utf8(lossy_of(l.bytes@))) + seq![
        44u8,
        34u8,
        116u8,
        114u8,
        117u8,
        110u8,
        99u8,
        97u8,
        116u8,
        101u8,
        100u8,
        34u8,
        58u8,
    ] + (if l.truncated {
        seq![116u8, 114u8, 117u8, 101u8]
    } else {
        seq![102u8, 97u8, 108u8, 115u8, 101u8]
    }) + seq![125u8]
}

/// A comma-separated list of lines.
pub open spec fn spec_lines_json(s: Seq<ContentLine>) -> Seq<u8>
    decreases s.len(),
{
    if s.len() == 0 {
        Seq::empty()
    } else if s.len() == 1 {
        spec_line_json(s[0])
    } else {
        spec_lines_json(s.drop_last()) + seq![44u8] + spec_line_json(s.last())
    }
}

/// `{"lines":[..]}` for one match group.
pub open spec fn spec_group_json(g: ContentMatch) -> Seq<u8> {
    seq![123u8, 34u8, 108u8, 105u8, 110u8, 101u8, 115u8, 34u8, 58u8, 91u8] + spec_lines_json(
        g.lines@,
    ) + seq![93u8, 125u8]
}

/// A comma-separated list of match groups.
pub open spec fn spec_groups_json(s: Seq<ContentMatch>) -> Seq<u8>
    decreases s.len(),
{
    if s.len() == 0 {
        Seq::empty()
    } else if s.len() == 1 {
        spec_group_json(s[0])
    } else {
        spec_groups_json(s.drop_last()) + seq![44u8] + spec_group_json(s.last())
    }
}

/// `{"path":"..","ext":"..","matches":[..]}` for one content hit.
pub open spec fn spec_content_item_json(c: ContentItem) -> Seq<u8> {
    seq![123u8, 34u8, 112u8, 97u8, 116u8, 104u8, 34u8, 58u8] + spec_quoted(encode_utf8(c.path@))
        + seq![44u8, 34u8, 101u8, 120u8, 116u8, 34u8, 58u8, 34u8] + spec_ext_bytes(c.ext) + seq![
        34u8,
        44u8,
        34u8,
        109u8,
        97u8,
        116u8,
        99u8,
        104u8,
        101u8,
        115u8,
        34u8,
        58u8,
        91u8,
    ] + spec_groups_json(c.matches@) + seq![93u8, 125u8]
}

/// A comma-separated list of content hits.
pub open spec fn spec_content_json(s: Seq<ContentItem>) -> Seq<u8>
    decreases s.len(),
{
    if s.len() == 0 {
        Seq::empty()
    } else if s.len() == 1 {
        spec_content_item_json(s[0])
    } else {
        spec_content_json(s.drop_last()) + seq![44u8] + spec_content_item_json(s.last())
    }
}

/// The whole report: `{"used_cache":..,"files":[..],"file_matches":..,`
/// `"content":[..],"content_matches":..}`.
pub open spec fn spec_report_json(r: SearchResult) -> Seq<u8> {
    seq![
        123u8,
        34u8,
        117u8,
        115u8,
        101u8,
        100u8,
        95u8,
        99u8,
        97u8,
        99u8,
        104u8,
        101u8,
        34u8,
        58u8,
    ] + (if r.used_cache {
        seq![116u8, 114u8, 117u8, 101u8]
    } else {
        seq![102u8, 97u8, 108u8, 115u8, 101u8]
    }) + seq![44u8, 34u8, 102u8, 105u8, 108u8, 101u8, 115u8, 34u8, 58u8, 91u8] + spec_files_json(
        r.files@,
    ) + seq![
        93u8,
        44u8,
        34u8,
        102u8,
        105u8,
        108u8,
        101u8,
        95u8,
        109u8,
        97u8,
        116u8,
        99u8,
        104u8,
        101u8,
        115u8,
        34u8,
        58u8,
    ] + spec_matched_json(r.file_matches) + seq![
        44u8,
        34u8,
        99u8,
        111u8,
        110u8,
        116u8,
        101u8,
        110u8,
        116u8,
        34u8,
        58u8,
        91u8,
    ] + spec_content_json(r.content@) + seq![
        93u8,
        44u8,
        34u8,
        99u8,
        111u8,
        110u8,
        116u8,
        101u8,
        110u8,
        116u8,
        95u8,
        109u8,
        97u8,
        116u8,
        99u8,
        104u8,
        101u8,
        115u8,
        34u8,
        58u8,
    ] + spec_matched_json(r.content_matches) + seq![125u8]
}

/// Appends a fixed fragment.
fn push_all(out: &mut Vec<u8>, a: &[u8])
    ensures
        final(out)@ == old(out)@ + a@,
{
    let mut i: usize = 0;
    while i < a.len()
        invariant
            i <= a@.len(),
            out@ == old(out)@ + a@.subrange(0, i as int),
        decreases a@.len() - i,
    {
        out.push(a[i]);
        proof {
            assert(out@ =~= old(out)@ + a@.subrange(0, i + 1 as int));
        }
        i = i + 1;
    }
    proof {
        assert(out@ =~= old(out)@ + a@);
    }
}

/// Exec twin of `spec_hexd`.
fn hexd(d: u8) -> (r: u8)
    requires
        d < 16,
    ensures
        r == spec_hexd(d),
{
    if d < 10 {
        48 + d
    } else {
        87 + d
    }
}

/// Appends the escaped form of the bytes.
fn write_escaped(out: &mut Vec<u8>, b: &[u8])
    ensures
        final(out)@ == old(out)@ + spec_escape(b@),
{
    let mut i: usize = 0;
    while i < b.len()
        invariant
            i <= b@.len(),
            out@ == old(out)@ + spec_escape(b@.take(i as int)),
        decreases b@.len() - i,
    {
        let c = b[i];
        if c == 34 {
            out.push(92);
            out.push(34);
        } else if c == 92 {
            out.push(92);
            out.push(92);
        } else if c < 32 {
            out.push(92);
            out.push(117);
            out.push(48);
            out.push(48);
            out.push(hexd(c / 16));
            out.push(hexd(c % 16));
        } else {
            out.push(c);
        }
        proof {
            assert(b@.take(i + 1 as int).drop_last() =~= b@.take(i as int));
            assert(b@.take(i + 1 as int).last() == b@[i as int]);
            assert(out@ =~= old(out)@ + spec_escape(b@.take(i + 1 as int)));
        }
        i = i + 1;
    }
    proof {
        assert(b@.take(b@.len() as int) =~= b@);
    }
}

/// Appends a JSON string holding the escaped bytes.
fn write_quoted(out: &mut Vec<u8>, b: &[u8])
    ensures
        final(out)@ == old(out)@ + spec_quoted(b@),
{
    out.push(34);
    write_escaped(out, b);
    out.push(34);
    proof {
        assert(out@ =~= old(out)@ + spec_quoted(b@));
    }
}

/// Appends a number in decimal.
fn write_u64(out: &mut Vec<u8>, n: u64)
    ensures
        final(out)@ == old(out)@ + spec_dec(n as nat),
    decreases n,
{
    if n < 10 {
        out.push(48 + n as u8);
        proof {
            assert(out@ =~= old(out)@ + spec_dec(n as nat));
        }
    } else {
        write_u64(out, n / 10);
        out.push(48 + (n % 10) as u8);
        proof {
            assert(out@ =~= old(out)@ + spec_dec(n as nat));
        }
    }
}

/// Appends an extension label.
fn write_ext(out: &mut Vec<u8>, e: Extension)
    ensures
        final(out)@ == old(out)@ + spec_ext_bytes(e),
{
    match e {
        Extension::C => push_all(out, &[99]),
        Extension::Cpp => push_all(out, &[99, 112, 112]),
        Extension::Go => push_all(out, &[103, 111]),
        Extension::H => push_all(out, &[104]),
        Extension::Java => push_all(out, &[106, 97, 118, 97]),
        Extension::Js => push_all(out, &[106, 115]),
        Extension::Md => push_all(out, &[109, 100]),
        Extension::Py => push_all(out, &[112, 121]),
        Extension::Rs => push_all(out, &[114, 115]),
        Extension::Src => push_all(out, &[115, 114, 99]),
        Extension::Txt => push_all(out, &[116, 120, 116]),
        Extension::Unknown => push_all(out, &[117, 110, 107, 110, 111, 119, 110]),
    }
    proof {
        assert(out@ =~= old(out)@ + spec_ext_bytes(e));
    }
}

/// Appends one filename hit.
fn write_file(out: &mut Vec<u8>, f: &FileItem)
    ensures
        final(out)@ == old(out)@ + spec_file_json(*f),
{
    push_all(out, &[123, 34, 112, 97, 116, 104, 34, 58]);
    write_quoted(out, f.path.as_str().as_bytes());
    push_all(out, &[44, 34, 101, 120, 116, 34, 58, 34]);
    write_ext(out, f.ext);
    push_all(out, &[34, 125]);
    proof {
        assert(out@ =~= old(out)@ + spec_file_json(*f));
    }
}

/// Appends the list of filename hits.
fn write_files(out: &mut Vec<u8>, files: &Vec<FileItem>)
    ensures
        final(out)@ == old(out)@ + spec_files_json(files@),
{
    let mut i: usize = 0;
    while i < files.len()
        invariant
            i <= files@.len(),
            out@ == old(out)@ + spec_files_json(files@.take(i as int)),
        decreases files@.len() - i,
    {
        if i > 0 {
            out.push(44);
        }
        write_file(out, &files[i]);
        proof {
            assert(files@.take(i + 1 as int).drop_last() =~= files@.take(i as int));
            assert(files@.take(i + 1 as int).last() == files@[i as int]);
            assert(out@ =~= old(out)@ + spec_files_json(files@.take(i + 1 as int)));
        }
        i = i + 1;
    }
    proof {
        assert(files@.take(files@.len() as int) =~= files@);
    }
}

/// Appends a count marker object.
fn write_matched(out: &mut Vec<u8>, m: Matched)
    ensures
        final(out)@ == old(out)@ + spec_matched_json(m),
{
    let (count, exact) = matched_parts(m);
    push_all(out, &[123, 34, 99, 111, 117, 110, 116, 34, 58]);
    write_u64(out, count as u64);
    push_all(out, &[44, 34, 109, 97, 116, 99, 104, 34, 58, 34]);
    if exact {
        push_all(out, &[101, 120, 97, 99, 116]);
    } else {
        push_all(out, &[97, 116, 108, 101, 97, 115, 116]);
    }
    push_all(out, &[34, 125]);
    proof {
        assert(out@ =~= old(out)@ + spec_matched_json(m));
    }
}

/// Appends one stored line.
fn write_line(out: &mut Vec<u8>, l: &ContentLine)
    ensures
        final(out)@ == old(out)@ + spec_line_json(*l),
{
    push_all(out, &[123, 34, 107, 105, 110, 100, 34, 58, 34]);
    match l.kind {
        ContentKind::Before => push_all(out, &[98, 101, 102, 111, 114, 101]),
        ContentKind::Match => push_all(out, &[109, 97, 116, 99, 104]),
        ContentKind::After => push_all(out, &[97, 102, 116, 101, 114]),
    }
    push_all(out, &[34, 44, 34, 110, 117, 109, 34, 58]);
    write_u64(out, l.num);
    push_all(out, &[44, 34, 98, 121, 116, 101, 115, 34, 58]);
    let s = utf8_lossy(l.bytes.as_slice());
    write_quoted(out, s.as_str().as_bytes());
    push_all(out, &[44, 34, 116, 114, 117, 110, 99, 97, 116, 101, 100, 34, 58]);
    if l.truncated {
        push_all(out, &[116, 114, 117, 101]);
    } else {
        push_all(out, &[102, 97, 108, 115, 101]);
    }
    push_all(out, &[125]);
    proof {
        assert(out@ =~= old(out)@ + spec_line_json(*l));
    }
}

/// Appends the list of lines of one group.
fn write_lines(out: &mut Vec<u8>, lines: &Vec<ContentLine>)
    ensures
        final(out)@ == old(out)@ + spec_lines_json(lines@),
{
    let mut i: usize = 0;
    while i < lines.len()
        invariant
            i <= lines@.len(),
            out@ == old(out)@ + spec_lines_json(lines@.take(i as int)),
        decreases lines@.len() - i,
    {
        if i > 0 {
            out.push(44);
        }
        write_line(out, &lines[i]);
        proof {
            assert(lines@.take(i + 1 as int).drop_last() =~= lines@.take(i as int));
            assert(lines@.take(i + 1 as int).last() == lines@[i as int]);
            assert(out@ =~= old(out)@ + spec_lines_json(lines@.take(i + 1 as int)));
        }
        i = i + 1;
    }
    proof {
        assert(lines@.take(lines@.len() as int) =~= lines@);
    }
}

/// Appends one match group.
fn write_group(out: &mut Vec<u8>, g: &ContentMatch)
    ensures
        final(out)@ == old(out)@ + spec_group_json(*g),
{
    push_all(out, &[123, 34, 108, 105, 110, 101, 115, 34, 58, 91]);
    write_lines(out, &g.lines);
    push_all(out, &[93, 125]);
    proof {
        assert(out@ =~= old(out)@ + spec_group_json(*g));
    }
}

/// Appends the list of match groups of one content hit.
fn write_groups(out: &mut Vec<u8>, groups: &Vec<ContentMatch>)
    ensures
        final(out)@ == old(out)@ + spec_groups_json(groups@),
{
    let mut i: usize = 0;
    while i < groups.len()
        invariant
            i <= groups@.len(),
            out@ == old(out)@ + spec_groups_json(groups@.take(i as int)),
        decreases groups@.len() - i,
    {
        if i > 0 {
            out.push(44);
        }
        write_group(out, &groups[i]);
        proof {
            assert(groups@.take(i + 1 as int).drop_last() =~= groups@.take(i as int));
            assert(groups@.take(i + 1 as int).last() == groups@[i as int]);
            assert(out@ =~= old(out)@ + spec_groups_json(groups@.take(i + 1 as int)));
        }
        i = i + 1;
    }
    proof {
        assert(groups@.take(groups@.len() as int) =~= groups@);
    }
}

/// Appends one content hit.
fn write_content_item(out: &mut Vec<u8>, c: &ContentItem)
    ensures
        final(out)@ == old(out)@ + spec_content_item_json(*c),
{
    push_all(out, &[123, 34, 112, 97, 116, 104, 34, 58]);
    write_quoted(out, c.path.as_str().as_bytes());
    push_all(out, &[44, 34, 101, 120, 116, 34, 58, 34]);
    write_ext(out, c.ext);
    push_all(out, &[34, 44, 34, 109, 97, 116, 99, 104, 101, 115, 34, 58, 91]);
    write_groups(out, &c.matches);
    push_all(out, &[93, 125]);
    proof {
        assert(out@ =~= old(out)@ + spec_content_item_json(*c));
    }
}

/// Appends the list of content hits.
fn write_content(out: &mut Vec<u8>, content: &Vec<ContentItem>)
    ensures
        final(out)@ == old(out)@ + spec_content_json(content@),
{
    let mut i: usize = 0;
    while i < content.len()
        invariant
            i <= content@.len(),
            out@ == old(out)@ + spec_content_json(content@.take(i as int)),
        decreases content@.len() - i,
    {
        if i > 0 {
            out.push(44);
        }
        write_content_item(out, &content[i]);
        proof {
            assert(content@.take(i + 1 as int).drop_last() =~= content@.take(i as int));
            assert(content@.take(i + 1 as int).last() == content@[i as int]);
            assert(out@ =~= old(out)@ + spec_content_json(content@.take(i + 1 as int)));
        }
        i = i + 1;
    }
    proof {
        assert(content@.take(content@.len() as int) =~= content@);
    }
}

/// Writes a whole report as JSON bytes, exactly as `spec_report_json`
/// states.
pub fn report_json(r: &SearchResult) -> (out: Vec<u8>)
    ensures
        out@ == spec_report_json(*r),
{
    let mut out: Vec<u8> = Vec::new();
    push_all(&mut out, &[123, 34, 117, 115, 101, 100, 95, 99, 97, 99, 104, 101, 34, 58]);
    if r.used_cache {
        push_all(&mut out, &[116, 114, 117, 101]);
    } else {
        push_all(&mut out, &[102, 97, 108, 115, 101]);
    }
    push_all(&mut out, &[44, 34, 102, 105, 108, 101, 115, 34, 58, 91]);
    write_files(&mut out, &r.files);
    push_all(
        &mut out,
        &[93, 44, 34, 102, 105, 108, 101, 95, 109, 97, 116, 99, 104, 101, 115, 34, 58],
    );
    write_matched(&mut out, r.file_matches);
    push_all(&mut out, &[44, 34, 99, 111, 110, 116, 101, 110, 116, 34, 58, 91]);
    write_content(&mut out, &r.content);
    push_all(
        &mut out,
        &[
            93,
            44,
            34,
            99,
            111,
            110,
            116,
            101,
            110,
            116,
            95,
            109,
            97,
            116,
            99,
            104,
            101,
            115,
            34,
            58,
        ],
    );
    write_matched(&mut out, r.content_matches);
    push_all(&mut out, &[125]);
    proof {
        assert(out@ =~= spec_report_json(*r));
    }
    out
}

} // verus!
