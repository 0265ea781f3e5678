//! A store of values by page and sub-page, each with the instant it was
//! captured at. An entry is served while it is fresh. Staleness is looked at
//! when an entry is read: nothing is swept, and only `clear` removes.

use crate::clock::{fresh, is_fresh};
use std::collections::HashMap;
use vstd::prelude::*;

verus! {

/// What a store holds, by page and sub-page: the value and the instant it
/// was captured at.
pub type Entries<V> = Map<(u16, u16), (V, u128)>;

/// The value that `entries` serve for a page at the instant `now`: the one
/// stored for it, if there is one and it is fresh.
pub open spec fn served<V>(entries: Entries<V>, page: u16, sub_page: u16, now: u128) -> Option<V> {
    if entries.contains_key((page, sub_page)) && is_fresh(entries[(page, sub_page)].1, now) {
        Some(entries[(page, sub_page)].0)
    } else {
        None
    }
}

/// The number that stands for a page and sub-page in the table.
spec fn slot_of(page: u16, sub_page: u16) -> u32 {
    (page * 65536 + sub_page) as u32
}

/// A store of values by page and sub-page with the instants of capture.
pub struct Cache<V> {
    slots: HashMap<u32, (V, u128)>,
}

impl<V> View for Cache<V> {
    type V = Entries<V>;

    closed spec fn view(&self) -> Entries<V> {
        Map::new(
            |key: (u16, u16)| self.slots@.contains_key(slot_of(key.0, key.1)),
            |key: (u16, u16)| self.slots@[slot_of(key.0, key.1)],
        )
    }
}

/// The number that stands for a page and sub-page in the table.
fn slot(page: u16, sub_page: u16) -> (number: u32)
    ensures
        number == slot_of(page, sub_page),
{
    (page as u32) * 65536 + (sub_page as u32)
}

impl<V> Cache<V> {
    /// A store that holds nothing.
    pub fn new() -> (cache: Self)
        ensures
            cache@ == Map::<(u16, u16), (V, u128)>::empty(),
    {
        let cache = Cache { slots: HashMap::new() };
        assert(cache@ =~= Map::<(u16, u16), (V, u128)>::empty());
        cache
    }

    /// The value stored for a page, if there is one and it is fresh at `now`.
    pub fn get_if_fresh(&self, page: u16, sub_page: u16, now: u128) -> (found: Option<&V>)
        ensures
            match found {
                Some(value) => served(self@, page, sub_page, now) == Some(*value),
                None => served(self@, page, sub_page, now) is None,
            },
    {
        let number = slot(page, sub_page);
        match self.slots.get(&number) {
            Some(entry) => {
                if fresh(entry.1, now) {
                    Some(&entry.0)
                } else {
                    None
                }
            },
            None => None,
        }
    }

    /// Stores `value` for a page as captured at `now`, in place of what was
    /// stored for it.
    pub fn put(&mut self, page: u16, sub_page: u16, value: V, now: u128)
        ensures
            final(self)@ == old(self)@.insert((page, sub_page), (value, now)),
    {
        let number = slot(page, sub_page);
        self.slots.insert(number, (value, now));
        assert(final(self)@ =~= old(self)@.insert((page, sub_page), (value, now)));
    }

    /// Removes every entry.
    pub fn clear(&mut self)
        ensures
            final(self)@ == Map::<(u16, u16), (V, u128)>::empty(),
    {
        self.slots.clear();
        assert(final(self)@ =~= Map::<(u16, u16), (V, u128)>::empty());
    }
}

/// A value is served at every instant from its capture to the end of the
/// window, whatever was stored before.
pub proof fn lemma_served_while_fresh<V>(
    entries: Entries<V>,
    page: u16,
    sub_page: u16,
    value: V,
    captured: u128,
    now: u128,
)
    requires
        is_fresh(captured, now),
    ensures
        served(entries.insert((page, sub_page), (value, captured)), page, sub_page, now) == Some(
            value,
        ),
{
}

/// A value is no longer served once the window has passed, nor at an
/// instant before its capture.
pub proof fn lemma_not_served_when_stale<V>(
    entries: Entries<V>,
    page: u16,
    sub_page: u16,
    value: V,
    captured: u128,
    now: u128,
)
    requires
        !is_fresh(captured, now),
    ensures
        served(entries.insert((page, sub_page), (value, captured)), page, sub_page, now) is None,
{
}

/// Storing for one page changes nothing for any other.
pub proof fn lemma_put_leaves_others<V>(
    entries: Entries<V>,
    page: u16,
    sub_page: u16,
    value: V,
    captured: u128,
    other_page: u16,
    other_sub_page: u16,
    now: u128,
)
    requires
        (other_page, other_sub_page) != (page, sub_page),
    ensures
        served(
            entries.insert((page, sub_page), (value, captured)),
            other_page,
            other_sub_page,
            now,
        ) == served(entries, other_page, other_sub_page, now),
{
}

/// An empty store serves nothing.
pub proof fn lemma_empty_serves_nothing<V>(page: u16, sub_page: u16, now: u128)
    ensures
        served(Map::<(u16, u16), (V, u128)>::empty(), page, sub_page, now) is None,
{
}

} // verus!
