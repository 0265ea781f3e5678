//! The addresses of a page at the remote service.

use crate::chars::{numeral, push_numeral};
use vstd::prelude::*;
use vstd::string::StringExecFns;

verus! {

/// Where the text form of the pages is served.
pub const TEXT_ENDPOINT: &'static str =
    "https://www.servizitelevideo.rai.it/televideo/pub/solotesto.jsp";

/// Under which the image form of the pages is served.
pub const IMAGE_ENDPOINT: &'static str =
    "http://www.televideo.rai.it/televideo/pub/tt4web/Nazionale";

/// The address of the text form of a page under `base`. The sub-page is
/// named only where it is greater than 1.
pub open spec fn text_address(base: Seq<char>, page: u16, sub_page: u16) -> Seq<char> {
    if sub_page > 1 {
        base + "?pagina="@ + numeral(page as nat) + "&sottopagina="@ + numeral(sub_page as nat)
    } else {
        base + "?pagina="@ + numeral(page as nat)
    }
}

/// The address of the image form of a page under `base`: a file in the
/// widescreen naming. The sub-page is named only where it is greater than 1.
pub open spec fn image_address(base: Seq<char>, page: u16, sub_page: u16) -> Seq<char> {
    if sub_page > 1 {
        base + "/16_9_page-"@ + numeral(page as nat) + "."@ + numeral(sub_page as nat) + ".png"@
    } else {
        base + "/16_9_page-"@ + numeral(page as nat) + ".png"@
    }
}

/// The address of the text form of a page under `base`.
pub fn text_url(base: &str, page: u16, sub_page: u16) -> (url: String)
    ensures
        url@ == text_address(base@, page, sub_page),
{
    let mut url = String::from_str(base);
    url.append("?pagina=");
    push_numeral(&mut url, page);
    if sub_page > 1 {
        url.append("&sottopagina=");
        push_numeral(&mut url, sub_page);
    }
    url
}

/// The address of the image form of a page under `base`.
pub fn image_url(base: &str, page: u16, sub_page: u16) -> (url: String)
    ensures
        url@ == image_address(base@, page, sub_page),
{
    let mut url = String::from_str(base);
    url.append("/16_9_page-");
    push_numeral(&mut url, page);
    if sub_page > 1 {
        url.append(".");
        push_numeral(&mut url, sub_page);
    }
    url.append(".png");
    url
}

} // verus!
