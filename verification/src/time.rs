//! Instants on the UTC time line, and the wording of how long ago one was.

use crate::text::{decimal, push_decimal};
use vstd::prelude::*;

verus! {

/// Seconds since the Unix epoch of the earliest instant a `Timestamp` holds.
pub const MIN_SECS: i64 = -8_334_601_228_800;

/// Seconds since the Unix epoch of the last second a `Timestamp` holds.
pub const MAX_SECS: i64 = 8_210_266_876_799;

/// Whether `secs` whole seconds since the Unix epoch and `nanos`
/// nanoseconds into that second name an instant: the second lies within
/// the supported years, and the nanoseconds reach a thousand million or
/// more only inside a leap second, which ends a minute.
pub open spec fn valid_instant(secs: int, nanos: int) -> bool {
    &&& MIN_SECS <= secs <= MAX_SECS
    &&& 0 <= nanos < 2_000_000_000
    &&& (nanos >= 1_000_000_000 ==> secs % 60 == 59)
}

/// What a `Timestamp` stands for: a second and the nanoseconds into it.
pub struct Instant {
    pub secs: int,
    pub nanos: int,
}

/// Whether `a` comes strictly before `b`.
pub open spec fn earlier(a: Instant, b: Instant) -> bool {
    a.secs < b.secs || (a.secs == b.secs && a.nanos < b.nanos)
}

/// An instant in UTC. Every value is a valid instant.
#[derive(Clone, Copy, Debug, PartialEq, Eq, Structural)]
pub struct Timestamp {
    pub(crate) secs: i64,
    pub(crate) nanos: u32,
}

impl View for Timestamp {
    type V = Instant;

    closed spec fn view(&self) -> Instant {
        Instant { secs: self.secs as int, nanos: self.nanos as int }
    }
}

impl DeepView for Timestamp {
    type V = Instant;

    open spec fn deep_view(&self) -> Instant {
        self@
    }
}

/// The number of whole seconds from `earlier` to `later`, both given as
/// seconds and nanoseconds, as `chrono` counts them: towards zero, and
/// with the allowance it makes for a leap second in either argument.
pub uninterp spec fn whole_seconds_between(
    later_secs: int,
    later_nanos: int,
    earlier_secs: int,
    earlier_nanos: int,
) -> int;

/// The whole seconds in a span of `nanos` nanoseconds, counted towards
/// zero.
pub open spec fn whole_seconds(nanos: int) -> int {
    if nanos >= 0 {
        nanos / 1_000_000_000
    } else {
        -((-nanos) / 1_000_000_000)
    }
}

/// Whether the instant lies inside a leap second.
pub open spec fn in_leap_second(at: Instant) -> bool {
    at.nanos >= 1_000_000_000
}

/// The whole seconds from `earlier` to `later`, negative where `earlier`
/// is in fact the later of the two. Outside leap seconds that is the time
/// between the two, counted towards zero; where one of the two lies
/// inside a leap second, it is what `chrono` makes of it.
pub open spec fn seconds_between(later: Instant, earlier: Instant) -> int {
    if in_leap_second(later) || in_leap_second(earlier) {
        whole_seconds_between(later.secs, later.nanos, earlier.secs, earlier.nanos)
    } else {
        whole_seconds((later.secs - earlier.secs) * 1_000_000_000 + later.nanos - earlier.nanos)
    }
}

/// The instant that `text` denotes when read as an RFC 3339 date and
/// time by `chrono`, as seconds and nanoseconds; `None` where `chrono`
/// rejects the text.
pub uninterp spec fn rfc3339_instant(text: Seq<char>) -> Option<(int, int)>;

/// `chrono::DateTime::signed_duration_since` followed by
/// `TimeDelta::num_seconds`, on the two instants rebuilt with
/// `DateTime::from_timestamp`. Both are valid, so both can be rebuilt; the
/// subtraction itself cannot overflow. The number is the one `chrono`
/// computes for these two instants. Where neither lies inside a leap
/// second, `chrono` subtracts as if there were no leap seconds, and
/// `num_seconds` drops the fraction towards zero.
#[verifier::external_body]
fn chrono_seconds_between(later_secs: i64, later_nanos: u32, earlier_secs: i64, earlier_nanos: u32) -> (r: i64)
    requires
        valid_instant(later_secs as int, later_nanos as int),
        valid_instant(earlier_secs as int, earlier_nanos as int),
    ensures
        r == whole_seconds_between(
            later_secs as int,
            later_nanos as int,
            earlier_secs as int,
            earlier_nanos as int,
        ),
        later_nanos < 1_000_000_000 && earlier_nanos < 1_000_000_000 ==> r == whole_seconds(
            (later_secs - earlier_secs) * 1_000_000_000 + later_nanos - earlier_nanos,
        ),
{
    let later = chrono::DateTime::from_timestamp(later_secs, later_nanos).unwrap();
    let earlier = chrono::DateTime::from_timestamp(earlier_secs, earlier_nanos).unwrap();
    later.signed_duration_since(earlier).num_seconds()
}

/// `chrono::DateTime::parse_from_rfc3339`, with the parsed instant taken
/// apart by `timestamp` and `timestamp_subsec_nanos`, which `chrono`
/// documents to give back a pair that `from_timestamp` accepts. A text
/// that `chrono` rejects gives `None`.
#[verifier::external_body]
fn chrono_parse_rfc3339(text: &str) -> (r: Option<Timestamp>)
    ensures
        match r {
            Some(t) => rfc3339_instant(text@) == Some((t@.secs, t@.nanos)) && valid_instant(
                t@.secs,
                t@.nanos,
            ),
            None => rfc3339_instant(text@) is None,
        },
{
    match chrono::DateTime::parse_from_rfc3339(text) {
        Ok(parsed) => Some(
            Timestamp { secs: parsed.timestamp(), nanos: parsed.timestamp_subsec_nanos() },
        ),
        Err(_) => None,
    }
}

/// `chrono::Utc::now`, taken apart by `timestamp` and
/// `timestamp_subsec_nanos`. The clock decides the value: all that is
/// claimed is that it is a valid instant. `chrono` panics where the system
/// clock stands before the Unix epoch.
#[verifier::external_body]
fn chrono_now() -> (r: Timestamp)
    ensures
        valid_instant(r@.secs, r@.nanos),
{
    let now = chrono::Utc::now();
    Timestamp { secs: now.timestamp(), nanos: now.timestamp_subsec_nanos() }
}

impl Timestamp {
    #[verifier::type_invariant]
    pub closed spec fn is_valid(self) -> bool {
        valid_instant(self.secs as int, self.nanos as int)
    }

    /// The instant `nanos` nanoseconds into second `secs` since the Unix
    /// epoch, where the two name one.
    pub fn new(secs: i64, nanos: u32) -> (r: Option<Timestamp>)
        ensures
            r is Some <==> valid_instant(secs as int, nanos as int),
            r matches Some(t) ==> t@ == (Instant { secs: secs as int, nanos: nanos as int }),
    {
        if secs < MIN_SECS || secs > MAX_SECS || nanos >= 2_000_000_000 {
            return None;
        }
        if nanos >= 1_000_000_000 {
            let since_min: u64 = (secs - MIN_SECS) as u64;
            assert(since_min as int % 60 == secs as int % 60) by {
                assert(MIN_SECS as int == -138_910_020_480 * 60);
            }
            if since_min % 60 != 59 {
                return None;
            }
        }
        Some(Timestamp { secs, nanos })
    }

    /// Whole seconds since the Unix epoch.
    pub fn secs(&self) -> (r: i64)
        ensures
            r == self@.secs,
            valid_instant(self@.secs, self@.nanos),
    {
        proof {
            use_type_invariant(self);
        }
        self.secs
    }

    /// Nanoseconds into the second.
    pub fn nanos(&self) -> (r: u32)
        ensures
            r == self@.nanos,
    {
        self.nanos
    }

    /// Whether `self` comes strictly before `other`.
    pub fn is_before(&self, other: &Timestamp) -> (r: bool)
        ensures
            r == earlier(self@, other@),
    {
        self.secs < other.secs || (self.secs == other.secs && self.nanos < other.nanos)
    }

    /// The current time.
    pub fn now() -> (r: Timestamp)
        ensures
            valid_instant(r@.secs, r@.nanos),
    {
        chrono_now()
    }

    /// Reads an RFC 3339 date and time, such as `2024-05-01T12:00:00Z`.
    pub fn parse_rfc3339(text: &str) -> (r: Option<Timestamp>)
        ensures
            match r {
                Some(t) => rfc3339_instant(text@) == Some((t@.secs, t@.nanos)),
                None => rfc3339_instant(text@) is None,
            },
    {
        chrono_parse_rfc3339(text)
    }

    /// Whole seconds from `earlier` up to `self`; negative where `earlier`
    /// is in fact the later of the two.
    pub fn seconds_since(&self, earlier: &Timestamp) -> (r: i64)
        ensures
            r == seconds_between(self@, earlier@),
    {
        proof {
            use_type_invariant(self);
            use_type_invariant(earlier);
        }
        chrono_seconds_between(self.secs, self.nanos, earlier.secs, earlier.nanos)
    }
}

/// How an age of `seconds` whole seconds reads. The units are whole and
/// rounded down; a month counts thirty days and a year 365.
pub open spec fn relative_text(seconds: int) -> Seq<char> {
    let minutes = seconds / 60;
    let hours = seconds / 3600;
    let days = seconds / 86_400;
    let weeks = days / 7;
    let months = days / 30;
    let years = days / 365;
    if seconds < 0 {
        "in the future"@
    } else if seconds < 60 {
        if seconds <= 1 {
            "just now"@
        } else {
            decimal(seconds as nat) + "s ago"@
        }
    } else if minutes < 60 {
        if minutes == 1 {
            "1 min ago"@
        } else {
            decimal(minutes as nat) + " mins ago"@
        }
    } else if hours < 24 {
        if hours == 1 {
            "1 hour ago"@
        } else {
            decimal(hours as nat) + " hours ago"@
        }
    } else if days < 7 {
        if days == 1 {
            "yesterday"@
        } else {
            decimal(days as nat) + " days ago"@
        }
    } else if weeks < 4 {
        if weeks == 1 {
            "1 week ago"@
        } else {
            decimal(weeks as nat) + " weeks ago"@
        }
    } else if months < 12 {
        if months == 1 {
            "1 month ago"@
        } else {
            decimal(months as nat) + " months ago"@
        }
    } else if years == 1 {
        "1 year ago"@
    } else {
        decimal(years as nat) + " years ago"@
    }
}

/// A count followed by its unit, such as `5` and ` mins ago`.
fn counted(count: u64, unit: &str) -> (r: String)
    ensures
        r@ == decimal(count as nat) + unit@,
{
    let mut out = String::new();
    push_decimal(&mut out, count);
    out.append(unit);
    assert(out@ =~= decimal(count as nat) + unit@);
    out
}

/// Words an age of `seconds` whole seconds, such as `5 mins ago`.
pub fn relative_label(seconds: i64) -> (r: String)
    ensures
        r@ == relative_text(seconds as int),
{
    if seconds < 0 {
        return String::from_str("in the future");
    }
    let seconds: u64 = seconds as u64;
    let minutes: u64 = seconds / 60;
    let hours: u64 = seconds / 3600;
    let days: u64 = seconds / 86_400;
    let weeks: u64 = days / 7;
    let months: u64 = days / 30;
    let years: u64 = days / 365;
    if seconds < 60 {
        if seconds <= 1 {
            String::from_str("just now")
        } else {
            counted(seconds, "s ago")
        }
    } else if minutes < 60 {
        if minutes == 1 {
            String::from_str("1 min ago")
        } else {
            counted(minutes, " mins ago")
        }
    } else if hours < 24 {
        if hours == 1 {
            String::from_str("1 hour ago")
        } else {
            counted(hours, " hours ago")
        }
    } else if days < 7 {
        if days == 1 {
            String::from_str("yesterday")
        } else {
            counted(days, " days ago")
        }
    } else if weeks < 4 {
        if weeks == 1 {
            String::from_str("1 week ago")
        } else {
            counted(weeks, " weeks ago")
        }
    } else if months < 12 {
        if months == 1 {
            String::from_str("1 month ago")
        } else {
            counted(months, " months ago")
        }
    } else if years == 1 {
        String::from_str("1 year ago")
    } else {
        counted(years, " years ago")
    }
}

/// How long before `now` the instant `timestamp` was, in words.
pub fn format_relative_at(timestamp: Timestamp, now: Timestamp) -> (r: String)
    ensures
        r@ == relative_text(seconds_between(now@, timestamp@)),
{
    relative_label(now.seconds_since(&timestamp))
}

/// How long ago `timestamp` was, in words, by the clock at the time of
/// the call.
pub fn format_relative(timestamp: Timestamp) -> (r: String)
    ensures
        exists|now: Instant|
            valid_instant(now.secs, now.nanos) && r@ == relative_text(
                #[trigger] seconds_between(now, timestamp@),
            ),
{
    let now = Timestamp::now();
    let r = format_relative_at(timestamp, now);
    assert(valid_instant(now@.secs, now@.nanos) && r@ == relative_text(
        seconds_between(now@, timestamp@),
    ));
    r
}

} // verus!
