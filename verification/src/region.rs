//! The part of a document that holds the page body: what stands between the
//! two bracketing comments, or the whole document where either is missing.

use crate::chars::{chars_of, string_of};
use crate::scan::{find, find_from, lemma_find_from_is_first};
use vstd::prelude::*;
use vstd::slice::slice_subrange;

verus! {

/// The comment that opens the page body.
pub const START_MARKER: &'static str = "<!-- SOLOTESTO PAGINA E SOTTOPAGINA -->";

/// The comment that closes the page body.
pub const END_MARKER: &'static str = "<!-- /SOLOTESTO PAGINA E SOTTOPAGINA -->";

/// Where the page body starts and ends in `doc`: right after the first start
/// marker and right before the first end marker that follows it. Without a
/// start marker, or without an end marker after it, the bounds are those of
/// the whole document.
pub open spec fn region_bounds(doc: Seq<char>) -> (int, int) {
    match find_from(doc, START_MARKER@, 0) {
        Some(start) => match find_from(doc, END_MARKER@, start + START_MARKER@.len()) {
            Some(end) => (start + START_MARKER@.len(), end),
            None => (0, doc.len() as int),
        },
        None => (0, doc.len() as int),
    }
}

/// The part of `doc` that holds the page body.
pub open spec fn region_of(doc: Seq<char>) -> Seq<char> {
    doc.subrange(region_bounds(doc).0, region_bounds(doc).1)
}

/// The bounds of the region lie in the document, in order.
pub proof fn lemma_region_bounds_in_range(doc: Seq<char>)
    ensures
        0 <= region_bounds(doc).0 <= region_bounds(doc).1 <= doc.len(),
{
    lemma_find_from_is_first(doc, START_MARKER@, 0);
    if let Some(start) = find_from(doc, START_MARKER@, 0) {
        lemma_find_from_is_first(doc, END_MARKER@, start + START_MARKER@.len());
    }
}

/// Where the page body starts and ends in `doc`.
pub fn locate_region(doc: &[char]) -> (bounds: (usize, usize))
    ensures
        bounds.0 <= bounds.1 <= doc.len(),
        (bounds.0 as int, bounds.1 as int) == region_bounds(doc@),
{
    let start_marker = chars_of(START_MARKER);
    let end_marker = chars_of(END_MARKER);
    let whole: (usize, usize) = (0, doc.len());
    proof {
        lemma_region_bounds_in_range(doc@);
    }
    match find(doc, start_marker.as_slice(), 0) {
        Some(start) => {
            proof {
                lemma_find_from_is_first(doc@, START_MARKER@, 0);
            }
            let body: usize = start + start_marker.len();
            match find(doc, end_marker.as_slice(), body) {
                Some(end) => (body, end),
                None => whole,
            }
        },
        None => whole,
    }
}

/// The part of `html` that holds the page body.
pub fn content_region(html: &str) -> (region: String)
    ensures
        region@ == region_of(html@),
{
    let doc = chars_of(html);
    let (from, to) = locate_region(doc.as_slice());
    string_of(slice_subrange(doc.as_slice(), from, to))
}

} // verus!
