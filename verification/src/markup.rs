//! What the HTML parser of the `scraper` crate is asked for: the markup of
//! the first element that a selector matches, and the text of a fragment.
//! Nothing is proved of the parser. Its answers are named, and the contracts
//! of this library speak of them by these names.

use scraper::{Html, Selector};
use vstd::prelude::*;

verus! {

/// The markup of the first element of `fragment` that `selector` matches,
/// as `scraper` parses the fragment and writes the element out again. The
/// first is the one that the parser put into its tree before the others.
/// `None` where no element matches or `selector` is not a selector.
pub uninterp spec fn first_match(fragment: Seq<char>, selector: Seq<char>) -> Option<Seq<char>>;

/// The text of `fragment` as `scraper` parses it: what its text nodes hold,
/// joined in document order.
pub uninterp spec fn text_content(fragment: Seq<char>) -> Seq<char>;

/// Calls `scraper::Selector::parse` on `selector` and
/// `scraper::Html::parse_fragment` on `fragment`, takes the first element
/// that `Html::select` yields, which walks the nodes in the order in which
/// the parser made them, and writes it out with `ElementRef::html`.
///
/// The contract only gives the answer its name: the same fragment and
/// selector always yield the same markup. A selector that does not parse
/// yields `None`, as a fragment without a matching element does.
#[verifier::external_body]
pub(crate) fn first_match_markup(fragment: &str, selector: &str) -> (markup: Option<String>)
    ensures
        match markup {
            Some(found) => first_match(fragment@, selector@) == Some(found@),
            None => first_match(fragment@, selector@) is None,
        },
{
    let document = Html::parse_fragment(fragment);
    match Selector::parse(selector) {
        Ok(parsed) => match document.select(&parsed).next() {
            Some(element) => Some(element.html()),
            None => None,
        },
        Err(_) => None,
    }
}

/// Calls `scraper::Html::parse_fragment` on `fragment` and joins what
/// `ElementRef::text` yields for the root element.
///
/// The contract only gives the answer its name: the same fragment always
/// yields the same text.
#[verifier::external_body]
pub(crate) fn fragment_text(fragment: &str) -> (text: String)
    ensures
        text@ == text_content(fragment@),
{
    Html::parse_fragment(fragment).root_element().text().collect()
}

} // verus!
