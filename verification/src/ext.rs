//! File-extension tags: a closed set of known source-file extensions plus an
//! `Unknown` fallback.  Only files whose extension is supported are scanned
//! for content matches.

use vstd::prelude::*;
use vstd::string::StringSliceAdditionalSpecFns;

verus! {

/// Tag for a file extension.
#[derive(Clone, Copy, Debug, PartialEq, Eq, Structural)]
pub enum Extension {
    C,
    Cpp,
    Go,
    H,
    Java,
    Js,
    Md,
    Py,
    Rs,
    Src,
    Txt,
    Unknown,
}

/// The tag that a lower-case extension string parses to.
pub open spec fn spec_parse_ext(b: Seq<u8>) -> Extension {
    if b.len() == 1 && b[0] == 99 {
        Extension::C
    } else if b.len() == 3 && b[0] == 99 && b[1] == 112 && b[2] == 112 {
        Extension::Cpp
    } else if b.len() == 2 && b[0] == 103 && b[1] == 111 {
        Extension::Go
    } else if b.len() == 1 && b[0] == 104 {
        Extension::H
    } else if b.len() == 4 && b[0] == 106 && b[1] == 97 && b[2] == 118 && b[3] == 97 {
        Extension::Java
    } else if b.len() == 2 && b[0] == 106 && b[1] == 115 {
        Extension::Js
    } else if b.len() == 2 && b[0] == 109 && b[1] == 100 {
        Extension::Md
    } else if b.len() == 2 && b[0] == 112 && b[1] == 121 {
        Extension::Py
    } else if b.len() == 2 && b[0] == 114 && b[1] == 115 {
        Extension::Rs
    } else if b.len() == 3 && b[0] == 115 && b[1] == 114 && b[2] == 99 {
        Extension::Src
    } else if b.len() == 3 && b[0] == 116 && b[1] == 120 && b[2] == 116 {
        Extension::Txt
    } else {
        Extension::Unknown
    }
}

/// Parses an extension string (without the leading dot) to its tag.
/// Unrecognised extensions, the empty string among them, parse to `Unknown`.
pub fn parse_ext(s: &str) -> (r: Extension)
    ensures
        r == spec_parse_ext(s.spec_bytes()),
{
    let b = s.as_bytes();
    if b.len() == 1 && b[0] == 99 {
        Extension::C
    } else if b.len() == 3 && b[0] == 99 && b[1] == 112 && b[2] == 112 {
        Extension::Cpp
    } else if b.len() == 2 && b[0] == 103 && b[1] == 111 {
        Extension::Go
    } else if b.len() == 1 && b[0] == 104 {
        Extension::H
    } else if b.len() == 4 && b[0] == 106 && b[1] == 97 && b[2] == 118 && b[3] == 97 {
        Extension::Java
    } else if b.len() == 2 && b[0] == 106 && b[1] == 115 {
        Extension::Js
    } else if b.len() == 2 && b[0] == 109 && b[1] == 100 {
        Extension::Md
    } else if b.len() == 2 && b[0] == 112 && b[1] == 121 {
        Extension::Py
    } else if b.len() == 2 && b[0] == 114 && b[1] == 115 {
        Extension::Rs
    } else if b.len() == 3 && b[0] == 115 && b[1] == 114 && b[2] == 99 {
        Extension::Src
    } else if b.len() == 3 && b[0] == 116 && b[1] == 120 && b[2] == 116 {
        Extension::Txt
    } else {
        Extension::Unknown
    }
}

/// Whether files with this extension are scanned for content matches.
/// Every known tag is supported; only `Unknown` is not.
pub fn is_supported_extension(ext: Extension) -> (r: bool)
    ensures
        r == (ext != Extension::Unknown),
{
    !(ext == Extension::Unknown)
}

} // verus!
