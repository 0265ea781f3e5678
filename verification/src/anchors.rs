//! The rewrite of hyperlinks to their visible text.
//!
//! Only one form of anchor is rewritten: an opening tag with a single `href`
//! attribute in double quotes, a text without markup, and the closing tag.
//! Every other shape of anchor is left as it stands.

use crate::chars::{chars_of, string_of};
use crate::scan::{lemma_run_end_is_first, matches_at, occurs_at, run_end, skip_to};
use vstd::prelude::*;

verus! {

/// How a rewritten anchor begins, up to the link target.
pub const ANCHOR_OPEN: &'static str = "<a href=\"";

/// How a rewritten anchor ends.
pub const ANCHOR_CLOSE: &'static str = "</a>";

/// Whether an anchor of the rewritten form begins at `at`, and if so where
/// its text starts and ends.
///
/// The link target runs from the opening literal to the next double quote,
/// which a `>` must follow. The text runs from there to the next `<`, must
/// not be empty, and the closing tag must stand where it ends.
pub open spec fn anchor_at(s: Seq<char>, at: int) -> Option<(int, int)> {
    let quote = run_end(s, '"', at + ANCHOR_OPEN@.len());
    let text = quote + 2;
    let close = run_end(s, '<', text);
    if occurs_at(s, ANCHOR_OPEN@, at) && quote + 1 < s.len() && s[quote + 1] == '>' && text
        < close && occurs_at(s, ANCHOR_CLOSE@, close) {
        Some((text, close))
    } else {
        None
    }
}

/// What `s` reads from `at` on once each anchor of the rewritten form is
/// replaced by its text. Anchors are taken from left to right, and the
/// search goes on behind each one that was replaced.
pub open spec fn without_anchors_from(s: Seq<char>, at: int) -> Seq<char>
    decreases s.len() - at,
    via without_anchors_terminates
{
    if at < 0 || at >= s.len() {
        Seq::empty()
    } else {
        match anchor_at(s, at) {
            Some((text, close)) => s.subrange(text, close) + without_anchors_from(
                s,
                close + ANCHOR_CLOSE@.len(),
            ),
            None => seq![s[at]] + without_anchors_from(s, at + 1),
        }
    }
}

#[via_fn]
proof fn without_anchors_terminates(s: Seq<char>, at: int) {
    if 0 <= at < s.len() && anchor_at(s, at) is Some {
        lemma_anchor_in_range(s, at);
    }
}

/// `s` with each anchor of the rewritten form replaced by its text.
pub open spec fn without_anchors(s: Seq<char>) -> Seq<char> {
    without_anchors_from(s, 0)
}

/// An anchor's text lies behind its start and before its closing tag, which
/// lies in `s`.
pub proof fn lemma_anchor_in_range(s: Seq<char>, at: int)
    requires
        anchor_at(s, at) is Some,
    ensures
        ({
            let (text, close) = anchor_at(s, at).unwrap();
            &&& at + ANCHOR_OPEN@.len() + 2 <= text < close
            &&& close + ANCHOR_CLOSE@.len() <= s.len()
        }),
{
    lemma_run_end_is_first(s, '"', at + ANCHOR_OPEN@.len());
}

/// Markup in which no anchor of the rewritten form begins is left as it
/// stands, from any position on.
pub proof fn lemma_unrecognized_unchanged(s: Seq<char>, at: int)
    requires
        0 <= at <= s.len(),
        forall|i: int| at <= i < s.len() ==> anchor_at(s, i) is None,
    ensures
        without_anchors_from(s, at) == s.subrange(at, s.len() as int),
    decreases s.len() - at,
{
    if at < s.len() {
        lemma_unrecognized_unchanged(s, at + 1);
        assert(seq![s[at]] + s.subrange(at + 1, s.len() as int) =~= s.subrange(
            at,
            s.len() as int,
        ));
    } else {
        assert(s.subrange(at, s.len() as int) =~= Seq::<char>::empty());
    }
}

/// Whether an anchor of the rewritten form begins at `at`, and if so where
/// its text starts and ends.
fn match_anchor(s: &[char], open: &[char], close: &[char], at: usize) -> (found: Option<
    (usize, usize),
>)
    requires
        open@ == ANCHOR_OPEN@,
        close@ == ANCHOR_CLOSE@,
    ensures
        match found {
            Some((text, end)) => anchor_at(s@, at as int) == Some((text as int, end as int)),
            None => anchor_at(s@, at as int) is None,
        },
{
    let total: usize = s.len();
    if !matches_at(s, open, at) {
        return None;
    }
    let quote: usize = skip_to(s, '"', at + open.len());
    if quote >= total || total - quote < 2 || s[quote + 1] != '>' {
        return None;
    }
    let text: usize = quote + 2;
    let end: usize = skip_to(s, '<', text);
    if text < end && matches_at(s, close, end) {
        Some((text, end))
    } else {
        None
    }
}

/// `markup` with each anchor of the rewritten form replaced by its text.
pub fn strip_anchors(markup: &str) -> (cleaned: String)
    ensures
        cleaned@ == without_anchors(markup@),
{
    let s = chars_of(markup);
    let open = chars_of(ANCHOR_OPEN);
    let close = chars_of(ANCHOR_CLOSE);
    let mut out: Vec<char> = Vec::new();
    let mut at: usize = 0;
    while at < s.len()
        invariant
            at <= s.len(),
            s@ == markup@,
            open@ == ANCHOR_OPEN@,
            close@ == ANCHOR_CLOSE@,
            out@ + without_anchors_from(s@, at as int) == without_anchors(s@),
        decreases s.len() - at,
    {
        match match_anchor(s.as_slice(), open.as_slice(), close.as_slice(), at) {
            Some((text, end)) => {
                proof {
                    lemma_anchor_in_range(s@, at as int);
                }
                let ghost before = out@;
                let mut k: usize = text;
                while k < end
                    invariant
                        text <= k <= end <= s.len(),
                        out@ == before + s@.subrange(text as int, k as int),
                    decreases end - k,
                {
                    out.push(s[k]);
                    assert(s@.subrange(text as int, k as int).push(s@[k as int]) =~= s@.subrange(
                        text as int,
                        k + 1,
                    ));
                    k += 1;
                }
                assert(out@ + without_anchors_from(s@, end + close@.len()) =~= before
                    + without_anchors_from(s@, at as int));
                at = end + close.len();
            },
            None => {
                let ghost before = out@;
                out.push(s[at]);
                assert(out@ + without_anchors_from(s@, at + 1) =~= before + without_anchors_from(
                    s@,
                    at as int,
                ));
                at += 1;
            },
        }
    }
    assert(out@ =~= out@ + without_anchors_from(s@, at as int));
    string_of(out.as_slice())
}

} // verus!
