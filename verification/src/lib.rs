//! A client for the pages of a teletext service.
//!
//! A page is asked for by its number and sub-page, in its text form or as
//! an image. Both forms are kept for five minutes, each in a cache of its
//! own. The library decides and transforms; the one thing it leaves to its
//! host is the request itself: `TelevideoClient::fetch_page` says whether a
//! request is due and to which address, and
//! `TelevideoClient::receive_page` takes what came back.

pub mod anchors;
pub mod cache;
pub mod chars;
pub mod client;
pub mod clock;
pub mod extract;
pub mod host;
pub mod layout;
pub mod lines;
pub mod markup;
pub mod page;
pub mod picture;
pub mod region;
pub mod reply;
pub mod scan;
pub mod url;

pub use client::{Fetch, TelevideoClient};
pub use page::TelevideoPage;
pub use reply::{FetchError, Reply};
