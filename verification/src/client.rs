//! The content client: two caches, one for the text form of the pages and
//! one for their image form, and the steps of a fetch around the single
//! request that the host makes.
//!
//! A fetch has two steps. The first looks into the cache and either serves
//! what is fresh there or names the address to ask. The host asks, once, and
//! hands the reply to the second step, which turns it into a page or an
//! error and stores what it got. A failure stores nothing and removes
//! nothing.

use crate::cache::{served, Cache, Entries};
use crate::clock::{is_fresh, is_time_of_day, now, system_clock, time_of_day, FRESH_NANOS};
use crate::extract::{parse_html, parsed_page};
use crate::page::{PageView, TelevideoPage};
use crate::reply::{screen, screened, FetchError, Reply};
use crate::url::{image_address, image_url, text_address, text_url, IMAGE_ENDPOINT, TEXT_ENDPOINT};
use crate::picture::{decode, decoding};
use image::{DynamicImage, ImageError};
use vstd::prelude::*;
use vstd::string::StringExecFns;

verus! {

/// The first step of a fetch: what the cache serves, or the address that
/// the host is to ask.
#[derive(Debug, PartialEq)]
pub enum Fetch<T> {
    /// The cache holds a fresh value: no request is made.
    Cached(T),
    /// The cache holds nothing fresh: one request is due, to this address.
    Request(String),
}

/// What `fetch_page` hands back at the instant `now`, given what the text
/// cache holds.
pub open spec fn page_fetched(
    pages: Entries<PageView>,
    page: u16,
    sub_page: u16,
    now: u128,
    step: Fetch<TelevideoPage>,
) -> bool {
    match served(pages, page, sub_page, now) {
        Some(held) => step matches Fetch::Cached(copy) && copy@ == held,
        None => step matches Fetch::Request(url) && url@ == text_address(
            TEXT_ENDPOINT@,
            page,
            sub_page,
        ),
    }
}

/// What `fetch_image` hands back at the instant `now`, given what the image
/// cache holds.
pub open spec fn image_fetched(
    images: Entries<DynamicImage>,
    page: u16,
    sub_page: u16,
    now: u128,
    step: Fetch<DynamicImage>,
) -> bool {
    match served(images, page, sub_page, now) {
        Some(held) => step == Fetch::Cached(held),
        None => step matches Fetch::Request(url) && url@ == image_address(
            IMAGE_ENDPOINT@,
            page,
            sub_page,
        ),
    }
}

/// What `receive_page` makes of a reply at the instant `now`, with
/// `timestamp` as the time of day: the page that the body holds, stored in
/// place of what the cache held for it, or the error of the reply and the
/// cache as it was.
pub open spec fn page_received(
    before: Entries<PageView>,
    after: Entries<PageView>,
    reply: Reply<String>,
    page: u16,
    sub_page: u16,
    now: u128,
    timestamp: Seq<char>,
    outcome: Result<TelevideoPage, FetchError>,
) -> bool {
    match screened(reply, page, sub_page) {
        Ok(body) => {
            &&& outcome matches Ok(parsed)
            &&& parsed@ == parsed_page(body@, page, sub_page, timestamp)
            &&& after == before.insert((page, sub_page), (parsed@, now))
        },
        Err(error) => outcome == Err::<TelevideoPage, FetchError>(error) && after == before,
    }
}

/// What `store_image` makes of a decoded body at the instant `now`: the
/// image, stored in place of what the cache held for the page, or
/// `FetchError::Decode` and the cache as it was.
pub open spec fn image_stored(
    before: Entries<DynamicImage>,
    after: Entries<DynamicImage>,
    decoded: Result<DynamicImage, ImageError>,
    page: u16,
    sub_page: u16,
    now: u128,
    outcome: Result<DynamicImage, FetchError>,
) -> bool {
    match decoded {
        Ok(picture) => {
            &&& outcome == Ok::<DynamicImage, FetchError>(picture)
            &&& after == before.insert((page, sub_page), (picture, now))
        },
        Err(_) => outcome == Err::<DynamicImage, FetchError>(FetchError::Decode) && after
            == before,
    }
}

/// The two addresses that the requests of a client go to. They are fixed
/// when the client is made.
struct Endpoints {
    base_url: String,
    image_base_url: String,
}

impl Endpoints {
    #[verifier::type_invariant]
    spec fn fixed(&self) -> bool {
        &&& self.base_url@ == TEXT_ENDPOINT@
        &&& self.image_base_url@ == IMAGE_ENDPOINT@
    }

    /// The two addresses of the service.
    fn new() -> (endpoints: Self)
        ensures
            endpoints.base_url@ == TEXT_ENDPOINT@,
            endpoints.image_base_url@ == IMAGE_ENDPOINT@,
    {
        Endpoints {
            base_url: String::from_str(TEXT_ENDPOINT),
            image_base_url: String::from_str(IMAGE_ENDPOINT),
        }
    }
}

/// The content client.
pub struct TelevideoClient {
    cache: Cache<TelevideoPage>,
    image_cache: Cache<DynamicImage>,
    endpoints: Endpoints,
}

impl TelevideoClient {
    /// What the text cache holds: by page and sub-page, the page and the
    /// instant it was captured at.
    pub closed spec fn pages(&self) -> Entries<PageView> {
        self.cache@.map_values(|entry: (TelevideoPage, u128)| (entry.0@, entry.1))
    }

    /// What the image cache holds: by page and sub-page, the image and the
    /// instant it was captured at.
    pub closed spec fn images(&self) -> Entries<DynamicImage> {
        self.image_cache@
    }

    /// A client whose caches hold nothing.
    pub fn new() -> (client: Self)
        ensures
            client.pages() == Map::<(u16, u16), (PageView, u128)>::empty(),
            client.images() == Map::<(u16, u16), (DynamicImage, u128)>::empty(),
    {
        let client = TelevideoClient {
            cache: Cache::new(),
            image_cache: Cache::new(),
            endpoints: Endpoints::new(),
        };
        assert(client.pages() =~= Map::<(u16, u16), (PageView, u128)>::empty());
        client
    }

    /// The first step of a fetch of the text form, at the instant `now`:
    /// a copy of the page that the cache holds, if it is fresh, and else the
    /// address to ask. The caches stay as they are.
    pub fn fetch_page_at(&self, page: u16, sub_page: u16, now: u128) -> (step: Fetch<
        TelevideoPage,
    >)
        ensures
            page_fetched(self.pages(), page, sub_page, now, step),
    {
        proof {
            use_type_invariant(&self.endpoints);
        }
        match self.cache.get_if_fresh(page, sub_page, now) {
            Some(held) => Fetch::Cached(held.clone()),
            None => Fetch::Request(text_url(self.endpoints.base_url.as_str(), page, sub_page)),
        }
    }

    /// The first step of a fetch of the text form, at the instant that the
    /// system clock shows. While the clock gives no reading, nothing counts
    /// as fresh: the step names the address to ask.
    pub fn fetch_page(&self, page: u16, sub_page: u16) -> (step: Fetch<TelevideoPage>)
        ensures
            ({
                ||| exists|at: u128| page_fetched(self.pages(), page, sub_page, at, step)
                ||| step matches Fetch::Request(url) && url@ == text_address(
                    TEXT_ENDPOINT@,
                    page,
                    sub_page,
                )
            }),
    {
        match system_clock() {
            Some(at) => self.fetch_page_at(page, sub_page, at),
            None => {
                proof {
                    use_type_invariant(&self.endpoints);
                }
                Fetch::Request(text_url(self.endpoints.base_url.as_str(), page, sub_page))
            },
        }
    }

    /// The second step of a fetch of the text form: what `reply` comes to
    /// at the instant `now`, with `timestamp` as the time of day. The image
    /// cache stays as it is.
    pub fn receive_page_at(
        &mut self,
        page: u16,
        sub_page: u16,
        reply: Reply<String>,
        now: u128,
        timestamp: String,
    ) -> (outcome: Result<TelevideoPage, FetchError>)
        ensures
            page_received(
                old(self).pages(),
                final(self).pages(),
                reply,
                page,
                sub_page,
                now,
                timestamp@,
                outcome,
            ),
            final(self).images() == old(self).images(),
    {
        match screen(reply, page, sub_page) {
            Ok(body) => {
                let parsed = parse_html(body.as_str(), page, sub_page, timestamp);
                let copy = parsed.clone();
                self.cache.put(page, sub_page, parsed, now);
                assert(final(self).pages() =~= old(self).pages().insert(
                    (page, sub_page),
                    (copy@, now),
                ));
                Ok(copy)
            },
            Err(error) => Err(error),
        }
    }

    /// The second step of a fetch of the text form, at the instant that the
    /// system clock shows and with the local time of day of that instant.
    /// The time of day is written as hours, minutes and seconds, or left
    /// empty where the instant has no local time.
    pub fn receive_page(&mut self, page: u16, sub_page: u16, reply: Reply<String>) -> (outcome:
        Result<TelevideoPage, FetchError>)
        ensures
            exists|at: u128, timestamp: Seq<char>|
                {
                    &&& timestamp.len() == 0 || is_time_of_day(timestamp)
                    &&& page_received(
                        old(self).pages(),
                        final(self).pages(),
                        reply,
                        page,
                        sub_page,
                        at,
                        timestamp,
                        outcome,
                    )
                },
            final(self).images() == old(self).images(),
    {
        let at = now();
        let timestamp = time_of_day(at);
        let ghost written = timestamp@;
        let outcome = self.receive_page_at(page, sub_page, reply, at, timestamp);
        assert(written.len() == 0 || is_time_of_day(written));
        assert(page_received(
            old(self).pages(),
            final(self).pages(),
            reply,
            page,
            sub_page,
            at,
            written,
            outcome,
        ));
        outcome
    }

    /// The first step of a fetch of the image form, at the instant `now`:
    /// a copy of the image that the cache holds, if it is fresh, and else
    /// the address to ask. The caches stay as they are.
    pub fn fetch_image_at(&self, page: u16, sub_page: u16, now: u128) -> (step: Fetch<
        DynamicImage,
    >)
        ensures
            image_fetched(self.images(), page, sub_page, now, step),
    {
        proof {
            use_type_invariant(&self.endpoints);
        }
        match self.image_cache.get_if_fresh(page, sub_page, now) {
            Some(held) => Fetch::Cached(held.clone()),
            None => Fetch::Request(image_url(self.endpoints.image_base_url.as_str(), page, sub_page)),
        }
    }

    /// The first step of a fetch of the image form, at the instant that the
    /// system clock shows. While the clock gives no reading, nothing counts
    /// as fresh: the step names the address to ask.
    pub fn fetch_image(&self, page: u16, sub_page: u16) -> (step: Fetch<DynamicImage>)
        ensures
            ({
                ||| exists|at: u128| image_fetched(self.images(), page, sub_page, at, step)
                ||| step matches Fetch::Request(url) && url@ == image_address(
                    IMAGE_ENDPOINT@,
                    page,
                    sub_page,
                )
            }),
    {
        match system_clock() {
            Some(at) => self.fetch_image_at(page, sub_page, at),
            None => {
                proof {
                    use_type_invariant(&self.endpoints);
                }
                Fetch::Request(image_url(self.endpoints.image_base_url.as_str(), page, sub_page))
            },
        }
    }

    /// Stores what decoding the body of a reply gave, at the instant `now`.
    /// The text cache stays as it is.
    pub fn store_image(
        &mut self,
        page: u16,
        sub_page: u16,
        decoded: Result<DynamicImage, ImageError>,
        now: u128,
    ) -> (outcome: Result<DynamicImage, FetchError>)
        ensures
            image_stored(
                old(self).images(),
                final(self).images(),
                decoded,
                page,
                sub_page,
                now,
                outcome,
            ),
            final(self).pages() == old(self).pages(),
    {
        match decoded {
            Ok(picture) => {
                let copy = picture.clone();
                self.image_cache.put(page, sub_page, picture, now);
                Ok(copy)
            },
            Err(_) => Err(FetchError::Decode),
        }
    }

    /// The second step of a fetch of the image form: the error that `reply`
    /// stands for, or else the image that its body decodes to, stored at
    /// the instant that the system clock shows, or `FetchError::Decode`
    /// where the body decodes to none. The text cache stays as it is.
    pub fn receive_image(&mut self, page: u16, sub_page: u16, reply: Reply<Vec<u8>>) -> (outcome:
        Result<DynamicImage, FetchError>)
        ensures
            match screened(reply, page, sub_page) {
                Ok(body) => match decoding(body@) {
                    Some(picture) => {
                        &&& outcome == Ok::<DynamicImage, FetchError>(picture)
                        &&& exists|at: u128|
                            final(self).images() == old(self).images().insert(
                                (page, sub_page),
                                (picture, at),
                            )
                    },
                    None => {
                        &&& outcome == Err::<DynamicImage, FetchError>(FetchError::Decode)
                        &&& final(self).images() == old(self).images()
                    },
                },
                Err(error) => {
                    &&& outcome == Err::<DynamicImage, FetchError>(error)
                    &&& final(self).images() == old(self).images()
                },
            },
            final(self).pages() == old(self).pages(),
    {
        match screen(reply, page, sub_page) {
            Ok(body) => {
                let decoded = decode(body.as_slice());
                let at = now();
                let outcome = self.store_image(page, sub_page, decoded, at);
                proof {
                    if let Some(picture) = decoding(body@) {
                        assert(final(self).images() == old(self).images().insert(
                            (page, sub_page),
                            (picture, at),
                        ));
                    }
                }
                outcome
            },
            Err(error) => Err(error),
        }
    }

    /// Empties both caches.
    pub fn clear_cache(&mut self)
        ensures
            final(self).pages() == Map::<(u16, u16), (PageView, u128)>::empty(),
            final(self).images() == Map::<(u16, u16), (DynamicImage, u128)>::empty(),
    {
        self.cache.clear();
        self.image_cache.clear();
        assert(final(self).pages() =~= Map::<(u16, u16), (PageView, u128)>::empty());
    }
}

/// Once the second step has stored a page at the instant `at`, a first
/// step for the same page at any instant `now` at which the entry is fresh
/// asks for no request and hands back what the second step handed back.
pub proof fn lemma_received_page_is_served(
    before: Entries<PageView>,
    after: Entries<PageView>,
    reply: Reply<String>,
    page: u16,
    sub_page: u16,
    at: u128,
    timestamp: Seq<char>,
    outcome: Result<TelevideoPage, FetchError>,
    now: u128,
    step: Fetch<TelevideoPage>,
)
    requires
        page_received(before, after, reply, page, sub_page, at, timestamp, outcome),
        outcome is Ok,
        is_fresh(at, now),
        page_fetched(after, page, sub_page, now, step),
    ensures
        step matches Fetch::Cached(copy) && copy@ == outcome->Ok_0@,
{
}

/// Once an image is stored at the instant `at`, a first step for the same
/// page at any instant `now` at which the entry is fresh asks for no request
/// and hands back that image.
pub proof fn lemma_stored_image_is_served(
    before: Entries<DynamicImage>,
    after: Entries<DynamicImage>,
    decoded: Result<DynamicImage, ImageError>,
    page: u16,
    sub_page: u16,
    at: u128,
    outcome: Result<DynamicImage, FetchError>,
    now: u128,
    step: Fetch<DynamicImage>,
)
    requires
        image_stored(before, after, decoded, page, sub_page, at, outcome),
        outcome is Ok,
        is_fresh(at, now),
        image_fetched(after, page, sub_page, now, step),
    ensures
        step == Fetch::Cached(outcome->Ok_0),
{
}

/// Once the window has passed since a page was stored at `at`, a first
/// step for it asks for one request, to the address of the page.
pub proof fn lemma_stale_page_is_requested(
    before: Entries<PageView>,
    after: Entries<PageView>,
    reply: Reply<String>,
    page: u16,
    sub_page: u16,
    at: u128,
    timestamp: Seq<char>,
    outcome: Result<TelevideoPage, FetchError>,
    now: u128,
    step: Fetch<TelevideoPage>,
)
    requires
        page_received(before, after, reply, page, sub_page, at, timestamp, outcome),
        outcome is Ok,
        now >= at + FRESH_NANOS,
        page_fetched(after, page, sub_page, now, step),
    ensures
        step matches Fetch::Request(url) && url@ == text_address(TEXT_ENDPOINT@, page, sub_page),
{
}

/// Once the window has passed since an image was stored at `at`, a first
/// step for it asks for one request, to the address of the image.
pub proof fn lemma_stale_image_is_requested(
    before: Entries<DynamicImage>,
    after: Entries<DynamicImage>,
    decoded: Result<DynamicImage, ImageError>,
    page: u16,
    sub_page: u16,
    at: u128,
    outcome: Result<DynamicImage, FetchError>,
    now: u128,
    step: Fetch<DynamicImage>,
)
    requires
        image_stored(before, after, decoded, page, sub_page, at, outcome),
        outcome is Ok,
        now >= at + FRESH_NANOS,
        image_fetched(after, page, sub_page, now, step),
    ensures
        step matches Fetch::Request(url) && url@ == image_address(IMAGE_ENDPOINT@, page, sub_page),
{
}

/// A reply that comes to an error leaves the text cache as it was.
pub proof fn lemma_failure_keeps_entries(
    before: Entries<PageView>,
    after: Entries<PageView>,
    reply: Reply<String>,
    page: u16,
    sub_page: u16,
    at: u128,
    timestamp: Seq<char>,
    outcome: Result<TelevideoPage, FetchError>,
)
    requires
        page_received(before, after, reply, page, sub_page, at, timestamp, outcome),
        outcome is Err,
    ensures
        after == before,
{
}

/// A body that cannot be decoded leaves the image cache as it was.
pub proof fn lemma_failure_keeps_images(
    before: Entries<DynamicImage>,
    after: Entries<DynamicImage>,
    decoded: Result<DynamicImage, ImageError>,
    page: u16,
    sub_page: u16,
    at: u128,
    outcome: Result<DynamicImage, FetchError>,
)
    requires
        image_stored(before, after, decoded, page, sub_page, at, outcome),
        outcome is Err,
    ensures
        after == before,
        outcome == Err::<DynamicImage, FetchError>(FetchError::Decode),
{
}

/// With both caches empty, as `clear_cache` leaves them, the first step of
/// a fetch asks for a request, for every page, in either form and at every
/// instant.
pub proof fn lemma_cleared_cache_requests(
    page: u16,
    sub_page: u16,
    now: u128,
    text_step: Fetch<TelevideoPage>,
    image_step: Fetch<DynamicImage>,
)
    requires
        page_fetched(Map::empty(), page, sub_page, now, text_step),
        image_fetched(Map::empty(), page, sub_page, now, image_step),
    ensures
        text_step matches Fetch::Request(url) && url@ == text_address(
            TEXT_ENDPOINT@,
            page,
            sub_page,
        ),
        image_step matches Fetch::Request(url) && url@ == image_address(
            IMAGE_ENDPOINT@,
            page,
            sub_page,
        ),
{
}

} // verus!
