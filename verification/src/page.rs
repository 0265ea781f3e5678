//! A page in its text form.

use crate::lines::texts;
use vstd::prelude::*;

verus! {

/// A page in its text form: its lines from top to bottom, the page and
/// sub-page it was asked for as, and the time of day it was captured at.
#[derive(Debug, PartialEq, Eq)]
pub struct TelevideoPage {
    pub page_number: u16,
    pub sub_page: u16,
    pub lines: Vec<String>,
    pub timestamp: String,
}

/// What a page holds, as plain values.
pub struct PageView {
    pub page_number: u16,
    pub sub_page: u16,
    pub lines: Seq<Seq<char>>,
    pub timestamp: Seq<char>,
}

impl View for TelevideoPage {
    type V = PageView;

    open spec fn view(&self) -> PageView {
        PageView {
            page_number: self.page_number,
            sub_page: self.sub_page,
            lines: texts(self.lines@),
            timestamp: self.timestamp@,
        }
    }
}

impl Clone for TelevideoPage {
    /// A copy that holds the same as the page.
    fn clone(&self) -> (copy: Self)
        ensures
            copy@ == self@,
    {
        let mut lines: Vec<String> = Vec::new();
        let mut i: usize = 0;
        while i < self.lines.len()
            invariant
                i <= self.lines.len(),
                lines@ == self.lines@.take(i as int),
            decreases self.lines.len() - i,
        {
            lines.push(self.lines[i].clone());
            assert(self.lines@.take(i as int).push(self.lines@[i as int]) =~= self.lines@.take(
                i + 1,
            ));
            i += 1;
        }
        assert(self.lines@.take(self.lines@.len() as int) =~= self.lines@);
        TelevideoPage {
            page_number: self.page_number,
            sub_page: self.sub_page,
            lines,
            timestamp: self.timestamp.clone(),
        }
    }
}

} // verus!
