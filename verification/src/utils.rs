//! Telling the two kinds of text apart.

use vstd::prelude::*;
use crate::document::{parse_document, toml_document};
use crate::scan::{find_cursor_line, has_cursor_line};

verus! {

/// What the document type `0` stands for: a table document.
pub const STRUCTURED: u8 = 0;

/// What the document type `1` stands for: a resource dump.
pub const RESOURCE_DUMP: u8 = 1;

/// What the document type `9` stands for: neither.
pub const UNRECOGNIZED: u8 = 9;

/// The type of a text: a table document where it parses as one; else a
/// resource dump where one of its lines sets the cursor color; else neither.
pub open spec fn document_type(text: Seq<char>) -> u8 {
    if toml_document(text) is Some {
        STRUCTURED
    } else if has_cursor_line(text) {
        RESOURCE_DUMP
    } else {
        UNRECOGNIZED
    }
}

/// The type of a text: `0` for a table document, `1` for a resource dump,
/// `9` for neither.
pub fn detect_string_type(s: &str) -> (t: u8)
    ensures
        t == document_type(s@),
        t == STRUCTURED || t == RESOURCE_DUMP || t == UNRECOGNIZED,
{
    match parse_document(s) {
        Some(_) => STRUCTURED,
        None => {
            if find_cursor_line(s) {
                RESOURCE_DUMP
            } else {
                UNRECOGNIZED
            }
        },
    }
}

} // verus!
