//! Timestamps, and their RFC 3339 wire form as chrono reads and writes it.

use vstd::prelude::*;
use crate::text::opt_text;

verus! {

/// An instant as plain numbers: whole seconds since 1970-01-01T00:00:00Z, and the nanoseconds
/// that follow them. During a leap second the nanoseconds run from 1_000_000_000 upwards.
pub ghost struct Instant {
    pub secs: int,
    pub nanos: int,
}

/// The instant that chrono's RFC 3339 parser reads from `text`, normalised to UTC; `None` where
/// the parser rejects the text.
pub uninterp spec fn rfc3339_instant(text: Seq<char>) -> Option<Instant>;

/// The RFC 3339 text, with exactly three fractional digits and a `Z` suffix, that chrono writes
/// for the instant `secs` + `nanos`; `None` where chrono has no such instant (seconds out of its
/// calendar's range, or nanoseconds that no second holds).
pub uninterp spec fn rfc3339_millis(secs: int, nanos: int) -> Option<Seq<char>>;

/// The instant of a pair of numbers.
pub open spec fn instant_of(pair: Option<(i64, u32)>) -> Option<Instant> {
    match pair {
        Some((secs, nanos)) => Some(Instant { secs: secs as int, nanos: nanos as int }),
        None => None,
    }
}

/// Reads RFC 3339 text as an instant.
///
/// Trusted: `chrono::DateTime::parse_from_rfc3339` decides whether `text` is accepted and which
/// instant it names. The instant comes back as `timestamp()` and `timestamp_subsec_nanos()`,
/// which chrono documents to be numbers that `from_timestamp` takes back: so what is read can
/// be written.
#[verifier::external_body]
fn read_rfc3339(text: &str) -> (res: Option<(i64, u32)>)
    ensures
        instant_of(res) == rfc3339_instant(text@),
        res matches Some((secs, nanos)) ==> rfc3339_millis(secs as int, nanos as int) is Some,
{
    chrono::DateTime::parse_from_rfc3339(text).ok().map(
        |at| (at.timestamp(), at.timestamp_subsec_nanos()),
    )
}

/// Writes an instant as RFC 3339 text in UTC, with three fractional digits and a `Z` suffix.
///
/// Trusted: `chrono::DateTime::from_timestamp` makes the instant, or `None` where the calendar
/// has none for these numbers; `to_rfc3339_opts` with `SecondsFormat::Millis` and `use_z`
/// writes it.
#[verifier::external_body]
fn write_rfc3339_millis(secs: i64, nanos: u32) -> (text: Option<String>)
    ensures
        opt_text(text) == rfc3339_millis(secs as int, nanos as int),
{
    chrono::DateTime::from_timestamp(secs, nanos).map(
        |at| at.to_rfc3339_opts(chrono::SecondsFormat::Millis, true),
    )
}

/// Reads the system clock.
///
/// Trusted: `chrono::Utc::now`, handed back as `timestamp()` and `timestamp_subsec_nanos()`.
/// Of the instant nothing is claimed but that it is one of the calendar.
#[verifier::external_body]
fn read_clock() -> (res: (i64, u32))
    ensures
        rfc3339_millis(res.0 as int, res.1 as int) is Some,
{
    let now = chrono::Utc::now();
    (now.timestamp(), now.timestamp_subsec_nanos())
}

/// A point in time, always one that the calendar holds and that can be written.
#[derive(Copy, Clone, Debug, PartialEq, Eq)]
pub struct Timestamp {
    secs: i64,
    nanos: u32,
}

impl View for Timestamp {
    type V = Instant;

    closed spec fn view(&self) -> Instant {
        Instant { secs: self.secs as int, nanos: self.nanos as int }
    }
}

impl Timestamp {
    #[verifier::type_invariant]
    spec fn representable(self) -> bool {
        rfc3339_millis(self.secs as int, self.nanos as int) is Some
    }

    /// The present instant, by the system clock. Which instant that is, the clock decides; it
    /// is always one that the calendar holds, so it has a wire form.
    pub fn now() -> (at: Timestamp)
        ensures
            rfc3339_millis(at@.secs, at@.nanos) is Some,
    {
        let (secs, nanos) = read_clock();
        Timestamp { secs, nanos }
    }

    /// The instant `secs` + `nanos`, if the calendar holds it.
    pub fn new(secs: i64, nanos: u32) -> (res: Option<Timestamp>)
        ensures
            res is Some <==> rfc3339_millis(secs as int, nanos as int) is Some,
            res matches Some(t) ==> t@ == (Instant { secs: secs as int, nanos: nanos as int }),
    {
        match write_rfc3339_millis(secs, nanos) {
            Some(_) => Some(Timestamp { secs, nanos }),
            None => None,
        }
    }

    /// The two numbers of a timestamp fit the machine types that hold them.
    pub proof fn lemma_view_is_bounded(self)
        ensures
            i64::MIN <= self@.secs <= i64::MAX,
            0 <= self@.nanos <= u32::MAX,
    {
    }

    /// Whole seconds since 1970-01-01T00:00:00Z.
    pub fn secs(&self) -> (s: i64)
        ensures
            s == self@.secs,
    {
        self.secs
    }

    /// Nanoseconds since the last whole second.
    pub fn nanos(&self) -> (n: u32)
        ensures
            n == self@.nanos,
    {
        self.nanos
    }

    /// The instant that `text` names in RFC 3339, whatever offset it is written with; `None`
    /// where `text` is not RFC 3339.
    pub fn parse_rfc3339(text: &str) -> (res: Option<Timestamp>)
        ensures
            res matches Some(t) ==> rfc3339_instant(text@) == Some(t@),
            res is None ==> rfc3339_instant(text@) is None,
    {
        match read_rfc3339(text) {
            Some((secs, nanos)) => Some(Timestamp { secs, nanos }),
            None => None,
        }
    }

    /// The wire form of this instant: RFC 3339 in UTC, three fractional digits, `Z` suffix.
    pub fn to_rfc3339_millis(&self) -> (text: String)
        ensures
            rfc3339_millis(self@.secs, self@.nanos) == Some(text@),
    {
        proof {
            use_type_invariant(self);
        }
        match write_rfc3339_millis(self.secs, self.nanos) {
            Some(text) => text,
            None => {
                assert(false);
                String::new()
            },
        }
    }

    /// This instant moved by `seconds`; `None` where that leaves the calendar.
    pub fn checked_add_seconds(&self, seconds: i64) -> (res: Option<Timestamp>)
        ensures
            res is Some <==> {
                &&& i64::MIN <= self@.secs + seconds <= i64::MAX
                &&& rfc3339_millis(self@.secs + seconds, self@.nanos) is Some
            },
            res matches Some(t) ==> t@ == (Instant {
                secs: self@.secs + seconds,
                nanos: self@.nanos,
            }),
    {
        match self.secs.checked_add(seconds) {
            Some(sum) => Timestamp::new(sum, self.nanos),
            None => None,
        }
    }
}

/// Writing `at` in the wire form and reading the text again gives `at` back.
pub open spec fn reads_back(at: Instant) -> bool {
    rfc3339_millis(at.secs, at.nanos) matches Some(text) && rfc3339_instant(text) == Some(at)
}

} // verus!
