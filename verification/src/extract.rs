//! From a document to the lines of a page.
//!
//! The document is narrowed to the region between the two bracketing
//! comments. In it the first preformatted block is looked up; its anchors
//! are replaced by their text; what is left is read as text and split into
//! lines. A document that yields no line yields the placeholder line.
//! Extraction never fails.

use crate::anchors::{strip_anchors, without_anchors};
use crate::lines::{lines_of, split_lines, texts};
use crate::markup::{first_match, first_match_markup, fragment_text, text_content};
use crate::page::{PageView, TelevideoPage};
use crate::region::{content_region, region_of};
use vstd::prelude::*;

verus! {

/// The selector of the block that holds the page body.
pub const BLOCK_SELECTOR: &'static str = "pre";

/// The line that stands for a page without content.
pub const PLACEHOLDER: &'static str = "(No content found on this page)";

/// `lines`, or the placeholder line alone where there is none.
pub open spec fn or_placeholder(lines: Seq<Seq<char>>) -> Seq<Seq<char>> {
    if lines.len() == 0 {
        seq![PLACEHOLDER@]
    } else {
        lines
    }
}

/// The lines of a block, given its markup: the lines of the text that is
/// left once the anchors are replaced. No block, no lines.
pub open spec fn block_lines(block: Option<Seq<char>>) -> Seq<Seq<char>> {
    match block {
        Some(markup) => lines_of(text_content(without_anchors(markup))),
        None => Seq::empty(),
    }
}

/// The lines of the page that `doc` holds.
pub open spec fn page_lines(doc: Seq<char>) -> Seq<Seq<char>> {
    or_placeholder(block_lines(first_match(region_of(doc), BLOCK_SELECTOR@)))
}

/// A document always yields at least one line.
pub proof fn lemma_page_has_lines(doc: Seq<char>)
    ensures
        page_lines(doc).len() >= 1,
{
}

/// A document whose region holds no preformatted block yields the
/// placeholder line and nothing else.
pub proof fn lemma_no_block_degrades(doc: Seq<char>)
    requires
        first_match(region_of(doc), BLOCK_SELECTOR@) is None,
    ensures
        page_lines(doc) == seq![PLACEHOLDER@],
{
}

/// `lines`, or the placeholder line alone where there is none.
pub fn fill_placeholder(lines: Vec<String>) -> (filled: Vec<String>)
    ensures
        texts(filled@) == or_placeholder(texts(lines@)),
        lines@.len() > 0 ==> filled == lines,
{
    if lines.len() == 0 {
        let mut filled: Vec<String> = Vec::new();
        filled.push(PLACEHOLDER.to_string());
        assert(texts(filled@) =~= seq![PLACEHOLDER@]);
        filled
    } else {
        lines
    }
}

/// The lines of a block, given its markup as the parser wrote it out.
pub fn read_block(block: Option<String>) -> (lines: Vec<String>)
    ensures
        texts(lines@) == block_lines(
            match block {
                Some(markup) => Some(markup@),
                None => None,
            },
        ),
{
    match block {
        Some(markup) => {
            let cleaned = strip_anchors(markup.as_str());
            let text = fragment_text(cleaned.as_str());
            split_lines(text.as_str())
        },
        None => {
            let lines: Vec<String> = Vec::new();
            assert(texts(lines@) =~= Seq::<Seq<char>>::empty());
            lines
        },
    }
}

/// The lines of the page that `html` holds.
pub fn extract_lines(html: &str) -> (lines: Vec<String>)
    ensures
        texts(lines@) == page_lines(html@),
        lines@.len() >= 1,
        first_match(region_of(html@), BLOCK_SELECTOR@) is None ==> texts(lines@) == seq![
            PLACEHOLDER@,
        ],
{
    let region = content_region(html);
    let block = first_match_markup(region.as_str(), BLOCK_SELECTOR);
    let lines = fill_placeholder(read_block(block));
    assert(texts(lines@).len() == lines@.len());
    lines
}

/// The page that `html` holds, asked for as `page` and `sub_page` and
/// captured at `timestamp`.
pub fn parse_html(html: &str, page: u16, sub_page: u16, timestamp: String) -> (parsed:
    TelevideoPage)
    ensures
        parsed@ == parsed_page(html@, page, sub_page, timestamp@),
        parsed.timestamp == timestamp,
{
    TelevideoPage { page_number: page, sub_page, lines: extract_lines(html), timestamp }
}

/// What `parse_html` makes of a document.
pub open spec fn parsed_page(
    doc: Seq<char>,
    page: u16,
    sub_page: u16,
    timestamp: Seq<char>,
) -> PageView {
    PageView { page_number: page, sub_page, lines: page_lines(doc), timestamp }
}

} // verus!
