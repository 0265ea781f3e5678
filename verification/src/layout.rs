//! What the host writes on the screen, as text: the two bars, the notices,
//! and the lines of a page moved to the middle of the area they are shown
//! in. Widths are counted as the host counts them: in bytes of UTF-8.

use crate::chars::{numeral, push_numeral, string_of};
use crate::host::{Browser, BrowserView, Notice};
use crate::lines::texts;
use vstd::prelude::*;
use vstd::string::StringExecFns;
use vstd::utf8::encode_utf8;

verus! {

/// The keys, as the bar at the bottom names them.
pub const HELP: &'static str =
    "  [\u{2190} / \u{2192}] Page  [\u{2191}/\u{2193}] Sub-page  [0-9] Jump  [v] Toggle view  [q] Quit  [c] Clear cache";

/// The width of a text on the bars: its bytes in UTF-8.
pub open spec fn width_of(text: Seq<char>) -> nat {
    encode_utf8(text).len()
}

/// `count` spaces.
pub open spec fn spaces(count: nat) -> Seq<char> {
    Seq::new(count, |i: int| ' ')
}

/// A bar of `width`: `left` at its left end, `right` at its right end and
/// spaces between them. Where the two do not fit, they stand side by side.
pub open spec fn bar_of(left: Seq<char>, right: Seq<char>, width: u16) -> Seq<char> {
    if width_of(left) + width_of(right) < width {
        left + spaces((width - width_of(left) - width_of(right)) as nat) + right
    } else {
        left + right
    }
}

/// How a notice is worded.
pub open spec fn notice_of(notice: Notice) -> Seq<char> {
    match notice {
        Notice::CacheCleared => "Cache cleared!"@,
        Notice::PageOutOfRange => "Page must be between 100-899"@,
    }
}

/// The left end of the bar at the top: the name of the service and the
/// page, with the sub-page where it is greater than 1.
pub open spec fn header_of(page: u16, part: u16) -> Seq<char> {
    if part > 1 {
        "  TELEVIDEO RAI - Page "@ + numeral(page as nat) + "."@ + numeral(part as nat)
    } else {
        "  TELEVIDEO RAI - Page "@ + numeral(page as nat)
    }
}

/// The right end of the bar at the top: the error, if there is one, else
/// that a load is under way, if one is.
pub open spec fn status_of<I>(state: BrowserView<I>) -> Seq<char> {
    match state.error {
        Some(error) => "ERROR: "@ + error + "  "@,
        None => if state.loading {
            "Loading...  "@
        } else {
            Seq::empty()
        },
    }
}

/// The bar at the bottom: the notice, if there is one; else what was typed
/// of a page number, if anything; else the keys.
pub open spec fn footer_of<I>(state: BrowserView<I>) -> Seq<char> {
    match state.message {
        Some(notice) => "  "@ + notice_of(notice),
        None => if state.page_input_buffer.len() > 0 {
            "  Go to page: "@ + state.page_input_buffer + "_"@
        } else {
            HELP@
        },
    }
}

/// A line moved to the middle of `width`: half of the room that it leaves
/// stands before it as spaces, rounded down. A line that fills the width
/// or more stays as it is.
pub open spec fn centered_line(line: Seq<char>, width: u16) -> Seq<char> {
    if width_of(line) < width {
        spaces(((width - width_of(line)) / 2) as nat) + line
    } else {
        line
    }
}

/// The empty lines above `count` lines in the middle of `height`: half of
/// the room that they leave, rounded down.
pub open spec fn lines_above(count: nat, height: u16) -> nat {
    if count < height {
        ((height - count) / 2) as nat
    } else {
        0
    }
}

/// The lines of a page moved to the middle of an area of `width` and
/// `height`: empty lines above, then each line moved to the middle.
pub open spec fn centered(lines: Seq<Seq<char>>, width: u16, height: u16) -> Seq<Seq<char>> {
    Seq::new(lines_above(lines.len(), height), |i: int| Seq::<char>::empty()) + lines.map_values(
        |line: Seq<char>| centered_line(line, width),
    )
}

/// Appends `count` spaces to `text`.
fn push_spaces(text: &mut String, count: usize)
    ensures
        final(text)@ == old(text)@ + spaces(count as nat),
{
    let mut done: usize = 0;
    while done < count
        invariant
            done <= count,
            text@ == old(text)@ + spaces(done as nat),
        decreases count - done,
    {
        text.push(' ');
        done += 1;
        assert(text@ =~= old(text)@ + spaces(done as nat));
    }
    assert(text@ =~= old(text)@ + spaces(count as nat));
}

/// A bar of `width` with `left` and `right` at its ends.
pub fn create_bar(left: &str, right: &str, width: u16) -> (bar: String)
    ensures
        bar@ == bar_of(left@, right@, width),
{
    let mut bar = String::from_str(left);
    let room: usize = width as usize;
    let taken: usize = left.as_bytes().len();
    let wanted: usize = right.as_bytes().len();
    if taken < room && wanted < room - taken {
        push_spaces(&mut bar, room - taken - wanted);
    }
    bar.append(right);
    bar
}

/// How `notice` is worded.
pub fn notice_text(notice: Notice) -> (text: &'static str)
    ensures
        text@ == notice_of(notice),
{
    match notice {
        Notice::CacheCleared => "Cache cleared!",
        Notice::PageOutOfRange => "Page must be between 100-899",
    }
}

/// The left end of the bar at the top.
pub fn header_text(page: u16, part: u16) -> (text: String)
    ensures
        text@ == header_of(page, part),
{
    let mut text = String::from_str("  TELEVIDEO RAI - Page ");
    push_numeral(&mut text, page);
    if part > 1 {
        text.append(".");
        push_numeral(&mut text, part);
    }
    text
}

/// The right end of the bar at the top.
pub fn status_text<I>(browser: &Browser<I>) -> (text: String)
    ensures
        text@ == status_of(browser@),
{
    match &browser.error {
        Some(error) => {
            let mut text = String::from_str("ERROR: ");
            text.append(error.as_str());
            text.append("  ");
            text
        },
        None => {
            if browser.loading {
                String::from_str("Loading...  ")
            } else {
                String::new()
            }
        },
    }
}

/// The bar at the bottom, before it is filled up to the width.
pub fn footer_text<I>(browser: &Browser<I>) -> (text: String)
    ensures
        text@ == footer_of(browser@),
{
    match browser.message {
        Some(notice) => {
            let mut text = String::from_str("  ");
            text.append(notice_text(notice));
            text
        },
        None => {
            if browser.page_input_buffer.len() > 0 {
                let mut text = String::from_str("  Go to page: ");
                text.append(string_of(browser.page_input_buffer.as_slice()).as_str());
                text.append("_");
                text
            } else {
                String::from_str(HELP)
            }
        },
    }
}

/// The bar at the top, for what `browser` holds.
pub fn header_bar<I>(browser: &Browser<I>, width: u16) -> (bar: String)
    ensures
        bar@ == bar_of(
            header_of(browser.current_page, browser.current_part),
            status_of(browser@),
            width,
        ),
{
    let left = header_text(browser.current_page, browser.current_part);
    let right = status_text(browser);
    create_bar(left.as_str(), right.as_str(), width)
}

/// The bar at the bottom, for what `browser` holds.
pub fn footer_bar<I>(browser: &Browser<I>, width: u16) -> (bar: String)
    ensures
        bar@ == bar_of(footer_of(browser@), Seq::empty(), width),
{
    let left = footer_text(browser);
    proof {
        reveal_strlit("");
        assert(""@ =~= Seq::<char>::empty());
    }
    create_bar(left.as_str(), "", width)
}

/// `line` moved to the middle of `width`.
pub fn center_line(line: &str, width: u16) -> (moved: String)
    ensures
        moved@ == centered_line(line@, width),
{
    let mut moved = String::new();
    let room: usize = width as usize;
    let taken: usize = line.as_bytes().len();
    if taken < room {
        push_spaces(&mut moved, (room - taken) / 2);
    }
    moved.append(line);
    assert(moved@ =~= centered_line(line@, width));
    moved
}

/// The lines of a page moved to the middle of an area of `width` and
/// `height`.
pub fn center_lines(lines: &Vec<String>, width: u16, height: u16) -> (moved: Vec<String>)
    ensures
        texts(moved@) == centered(texts(lines@), width, height),
{
    let room: usize = height as usize;
    let above: usize = if lines.len() < room {
        (room - lines.len()) / 2
    } else {
        0
    };
    let mut moved: Vec<String> = Vec::new();
    let mut at: usize = 0;
    while at < above
        invariant
            at <= above,
            texts(moved@) == Seq::new(at as nat, |i: int| Seq::<char>::empty()),
        decreases above - at,
    {
        let ghost before = moved@;
        moved.push(String::new());
        at += 1;
        assert(texts(moved@) =~= texts(before).push(Seq::<char>::empty()));
        assert(texts(moved@) =~= Seq::new(at as nat, |i: int| Seq::<char>::empty()));
    }
    let ghost empty = texts(moved@);
    let mut at: usize = 0;
    while at < lines.len()
        invariant
            at <= lines.len(),
            texts(moved@) == empty + texts(lines@).take(at as int).map_values(
                |line: Seq<char>| centered_line(line, width),
            ),
        decreases lines.len() - at,
    {
        let ghost before = moved@;
        let line = center_line(lines[at].as_str(), width);
        moved.push(line);
        assert(texts(moved@) =~= texts(before).push(centered_line(lines@[at as int]@, width)));
        at += 1;
        assert(texts(moved@) =~= empty + texts(lines@).take(at as int).map_values(
            |line: Seq<char>| centered_line(line, width),
        ));
    }
    assert(texts(lines@).take(at as int) =~= texts(lines@));
    moved
}

} // verus!
