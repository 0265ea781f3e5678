//! Time as the cache sees it: instants counted in nanoseconds since the
//! start of 1970 (UTC), the window of freshness, and the two readings of the
//! clock that a fetch needs.

use chrono::TimeZone;
use std::fmt::Write;
use std::time::{SystemTime, UNIX_EPOCH};
use vstd::prelude::*;

verus! {

/// How long a cache entry stays fresh, in nanoseconds: five minutes.
pub const FRESH_NANOS: u128 = 300_000_000_000;

/// The nanoseconds of a second.
pub const NANOS_PER_SECOND: u128 = 1_000_000_000;

/// How the time of day of a page is written: hours, minutes, seconds.
pub const TIME_OF_DAY_FORMAT: &'static str = "%H:%M:%S";

/// Whether what was captured at `captured` is fresh at `now`: `now` is not
/// before `captured`, and less than the window lies between them.
pub open spec fn is_fresh(captured: u128, now: u128) -> bool {
    captured <= now && now - captured < FRESH_NANOS
}

/// Whether what was captured at `captured` is fresh at `now`.
pub fn fresh(captured: u128, now: u128) -> (answer: bool)
    ensures
        answer == is_fresh(captured, now),
{
    captured <= now && now - captured < FRESH_NANOS
}

/// Reads `std::time::SystemTime::now` and hands back the nanoseconds that
/// `duration_since(UNIX_EPOCH)` counts up to it, or `None` where the clock
/// stands before the start of 1970. Nothing is claimed of the reading.
#[verifier::external_body]
pub(crate) fn system_clock() -> (nanos: Option<u128>) {
    match SystemTime::now().duration_since(UNIX_EPOCH) {
        Ok(elapsed) => Some(elapsed.as_nanos()),
        Err(_) => None,
    }
}

/// Asks `chrono::Local` for the local time at `seconds` and `nanos` after
/// the start of 1970 (`TimeZone::timestamp_opt`) and writes it out as
/// `format` says (`DateTime::format`). `None` where chrono has no such time
/// or cannot write it in that format.
///
/// The text depends on the time zone of the machine, so the contract says
/// only what holds in every zone, and only for the format of the time of
/// day: chrono writes hours, minutes and seconds with two digits each and
/// the colons of the format between them. chrono takes the offset of the
/// zone from the data of the machine and gives up where that data holds an
/// offset of a day or more.
#[verifier::external_body]
fn local_time(seconds: i64, nanos: u32, format: &str) -> (text: Option<String>)
    ensures
        format@ == TIME_OF_DAY_FORMAT@ ==> match text {
            Some(written) => is_time_of_day(written@),
            None => true,
        },
{
    match chrono::Local.timestamp_opt(seconds, nanos).single() {
        Some(at) => {
            let mut text = String::new();
            match write!(text, "{}", at.format(format)) {
                Ok(()) => Some(text),
                Err(_) => None,
            }
        },
        None => None,
    }
}

/// The instant at which what is received now counts as captured: the
/// reading of the system clock, or the start of 1970 where the clock stands
/// before it and gives none.
pub(crate) fn now() -> u128 {
    instant_read(system_clock())
}

/// The local time of day at the instant `now`, as hours, minutes and
/// seconds. Empty where the instant has no local time: always so where its
/// whole seconds are more than the calendar counts.
pub(crate) fn time_of_day(now: u128) -> (text: String)
    ensures
        calendar_time(now) is None ==> text@ == Seq::<char>::empty(),
        text@.len() == 0 || is_time_of_day(text@),
{
    match split_instant(now) {
        Some((seconds, nanos)) => time_written(local_time(seconds, nanos, TIME_OF_DAY_FORMAT)),
        None => String::new(),
    }
}

/// Whether `text` has the shape of a time of day: two digits each for
/// hours, minutes and seconds, and a colon between them.
pub open spec fn is_time_of_day(text: Seq<char>) -> bool {
    &&& text.len() == 8
    &&& forall|i: int| 0 <= i < 8 && i != 2 && i != 5 ==> '0' <= #[trigger] text[i] <= '9'
    &&& text[2] == ':'
    &&& text[5] == ':'
}

/// The instant that a reading of the clock stands for: the reading itself,
/// or 0 where the clock gave none.
pub open spec fn instant_of(reading: Option<u128>) -> u128 {
    match reading {
        Some(nanos) => nanos,
        None => 0,
    }
}

/// The instant `now` as the calendar takes it: its whole seconds and the
/// nanoseconds behind them. `None` where the seconds are more than the
/// calendar counts.
pub open spec fn calendar_time(now: u128) -> Option<(i64, u32)> {
    if now / NANOS_PER_SECOND <= i64::MAX {
        Some(((now / NANOS_PER_SECOND) as i64, (now % NANOS_PER_SECOND) as u32))
    } else {
        None
    }
}

/// How a local time is written, given what the calendar wrote: that text,
/// or nothing where it wrote none.
pub open spec fn written(local: Option<String>) -> Seq<char> {
    match local {
        Some(text) => text@,
        None => Seq::empty(),
    }
}

/// The instant that a reading of the clock stands for.
pub fn instant_read(reading: Option<u128>) -> (instant: u128)
    ensures
        instant == instant_of(reading),
{
    match reading {
        Some(nanos) => nanos,
        None => 0,
    }
}

/// The instant `now` as the calendar takes it.
pub fn split_instant(now: u128) -> (parts: Option<(i64, u32)>)
    ensures
        parts == calendar_time(now),
{
    let seconds: u128 = now / NANOS_PER_SECOND;
    let nanos: u32 = (now % NANOS_PER_SECOND) as u32;
    if seconds > 0x7fff_ffff_ffff_ffff {
        None
    } else {
        Some((seconds as i64, nanos))
    }
}

/// How a local time is written, given what the calendar wrote.
pub fn time_written(local: Option<String>) -> (text: String)
    ensures
        text@ == written(local),
{
    match local {
        Some(text) => text,
        None => String::new(),
    }
}

} // verus!
