//! Instants and how they are told to the user.

use vstd::prelude::*;
use vstd::string::StringExecFns;
use crate::text::{decimal, decimal_text};

verus! {

/// The instants that a calendar date and time of day can be given for: whole seconds since the
/// Unix epoch and the nanoseconds behind them. Nanoseconds of a second or more stand for a leap
/// second, which only a last second of a minute can have.
pub open spec fn is_instant(seconds: int, nanos: int) -> bool {
    &&& -8_334_601_228_800 <= seconds <= 8_210_266_876_799
    &&& 0 <= nanos < 2_000_000_000
    &&& nanos >= 1_000_000_000 ==> seconds % 60 == 59
}

/// An instant in UTC.
#[derive(Clone, Copy, Debug)]
pub struct Timestamp {
    seconds: i64,
    nanos: u32,
}

/// The text of an instant by `%Y-%m-%d %H:%M:%S`.
pub uninterp spec fn date_time_text(seconds: i64, nanos: u32) -> Seq<char>;

/// The seconds and nanoseconds of the instant that a text spells by RFC 3339, if it spells one.
pub uninterp spec fn rfc3339_instant(text: Seq<char>) -> Option<(i64, u32)>;

/// `chrono::DateTime::from_timestamp`: gives a date where the seconds lie within the years
/// -262143 to 262142 and the nanoseconds are those of a second or of a leap second.
#[verifier::external_body]
fn has_date_time(seconds: i64, nanos: u32) -> (r: bool)
    ensures
        r == is_instant(seconds as int, nanos as int),
{
    chrono::DateTime::from_timestamp(seconds, nanos).is_some()
}

/// Subtraction of `chrono::DateTime` values and `TimeDelta::num_seconds`: the whole seconds
/// between two instants, rounded toward zero. A leap second that one of them lies in is counted
/// where the other's time of day is a later one.
#[verifier::external_body]
fn count_seconds_until(
    reference_seconds: i64,
    reference_nanos: u32,
    seconds: i64,
    nanos: u32,
) -> (r: i64)
    requires
        is_instant(reference_seconds as int, reference_nanos as int),
        is_instant(seconds as int, nanos as int),
    ensures
        r == seconds_until(
            reference_seconds as int,
            reference_nanos as int,
            seconds as int,
            nanos as int,
        ),
{
    let reference = chrono::DateTime::from_timestamp(reference_seconds, reference_nanos).unwrap();
    let instant = chrono::DateTime::from_timestamp(seconds, nanos).unwrap();
    (reference - instant).num_seconds()
}

/// `chrono::DateTime::format` with `%Y-%m-%d %H:%M:%S`: the calendar date and the time of day.
#[verifier::external_body]
fn format_date_time(seconds: i64, nanos: u32) -> (r: String)
    requires
        is_instant(seconds as int, nanos as int),
    ensures
        r@ == date_time_text(seconds, nanos),
{
    let instant = chrono::DateTime::from_timestamp(seconds, nanos).unwrap();
    instant.format("%Y-%m-%d %H:%M:%S").to_string()
}

/// `chrono::DateTime::parse_from_rfc3339`: reads an RFC 3339 date and time.
#[verifier::external_body]
fn parse_rfc3339(text: &str) -> (r: Option<(i64, u32)>)
    ensures
        r == rfc3339_instant(text@),
{
    let instant = chrono::DateTime::parse_from_rfc3339(text).ok()?;
    Some((instant.timestamp(), instant.timestamp_subsec_nanos()))
}

/// `nanos` in whole seconds, rounded toward zero.
pub open spec fn whole_seconds(nanos: int) -> int {
    if nanos >= 0 {
        nanos / 1_000_000_000
    } else {
        -(-nanos / 1_000_000_000)
    }
}

/// The leap second that lies between two instants: one where the earlier of their times of day is
/// within a leap second, counted back where that is the reference's.
pub open spec fn leap_second_until(
    reference_seconds: int,
    reference_nanos: int,
    seconds: int,
    nanos: int,
) -> int {
    let reference_time = reference_seconds % 86400;
    let time = seconds % 86400;
    if reference_time > time && nanos >= 1_000_000_000 {
        1
    } else if reference_time < time && reference_nanos >= 1_000_000_000 {
        -1
    } else {
        0
    }
}

/// The whole seconds from an instant to a reference, rounded toward zero.
pub open spec fn seconds_until(
    reference_seconds: int,
    reference_nanos: int,
    seconds: int,
    nanos: int,
) -> int {
    let leap = leap_second_until(reference_seconds, reference_nanos, seconds, nanos);
    whole_seconds(
        (reference_seconds - seconds + leap) * 1_000_000_000 + (reference_nanos - nanos),
    )
}

impl Timestamp {
    #[verifier::type_invariant]
    spec fn has_calendar_date(self) -> bool {
        is_instant(self.seconds as int, self.nanos as int)
    }

    /// The seconds since the Unix epoch.
    pub closed spec fn seconds(self) -> i64 {
        self.seconds
    }

    /// The nanoseconds behind the seconds.
    pub closed spec fn nanos(self) -> u32 {
        self.nanos
    }

    /// The instant at `seconds` and `nanos`, if there is a date for it.
    pub fn from_unix(seconds: i64, nanos: u32) -> (r: Option<Timestamp>)
        ensures
            r is Some <==> is_instant(seconds as int, nanos as int),
            r is Some ==> r->0.seconds() == seconds && r->0.nanos() == nanos,
    {
        if has_date_time(seconds, nanos) {
            Some(Timestamp { seconds, nanos })
        } else {
            None
        }
    }

    /// The Unix epoch.
    pub fn epoch() -> (r: Timestamp)
        ensures
            r.seconds() == 0,
            r.nanos() == 0,
    {
        Timestamp { seconds: 0, nanos: 0 }
    }

    pub fn unix_seconds(&self) -> (r: i64)
        ensures
            r == self.seconds(),
    {
        self.seconds
    }
}

/// Two instants with the same seconds and nanoseconds are the same.
pub proof fn lemma_timestamp_is_its_parts(a: Timestamp, b: Timestamp)
    ensures
        a.seconds() == b.seconds() && a.nanos() == b.nanos() ==> a == b,
{
}

/// The instant that `ts` spells by RFC 3339.
pub fn parse_timestamp_str(ts: &str) -> (r: Option<Timestamp>)
    ensures
        match rfc3339_instant(ts@) {
            Some((seconds, nanos)) => if is_instant(seconds as int, nanos as int) {
                r is Some && r->0.seconds() == seconds && r->0.nanos() == nanos
            } else {
                r is None
            },
            None => r is None,
        },
{
    match parse_rfc3339(ts) {
        Some((seconds, nanos)) => Timestamp::from_unix(seconds, nanos),
        None => None,
    }
}

/// The seconds from `ts` to `reference`, none where `ts` lies ahead.
pub open spec fn elapsed(reference: Timestamp, ts: Timestamp) -> int {
    let seconds = seconds_until(
        reference.seconds() as int,
        reference.nanos() as int,
        ts.seconds() as int,
        ts.nanos() as int,
    );
    if seconds > 0 {
        seconds
    } else {
        0
    }
}

/// The seconds from `ts` to `reference`, none where `ts` lies ahead.
pub fn elapsed_seconds(reference: Timestamp, ts: Timestamp) -> (r: i64)
    ensures
        r == elapsed(reference, ts),
        r >= 0,
{
    proof {
        use_type_invariant(&reference);
        use_type_invariant(&ts);
    }
    let seconds: i64 = count_seconds_until(
        reference.seconds,
        reference.nanos,
        ts.seconds,
        ts.nanos,
    );
    if seconds > 0 {
        seconds
    } else {
        0
    }
}

/// A number of seconds told in its largest whole unit.
pub open spec fn relative_text(seconds: int) -> Seq<char> {
    if seconds == 0 {
        "now"@
    } else if seconds < 60 {
        decimal(seconds as nat) + "s ago"@
    } else if seconds < 3600 {
        decimal((seconds / 60) as nat) + "m ago"@
    } else if seconds < 86400 {
        decimal((seconds / 3600) as nat) + "h ago"@
    } else {
        decimal((seconds / 86400) as nat) + "d ago"@
    }
}

/// How long ago an instant was, in its largest whole unit; `-` where there is none.
pub open spec fn relative_time_text(reference: Timestamp, ts: Option<Timestamp>) -> Seq<char> {
    match ts {
        Some(ts) => relative_text(elapsed(reference, ts)),
        None => "-"@,
    }
}

fn count_ago(count: i64, unit: &str) -> (r: String)
    requires
        count >= 0,
    ensures
        r@ == decimal(count as nat) + unit@,
{
    let mut text = decimal_text(count as u64);
    text.append(unit);
    text
}

/// How long ago `ts` was, in its largest whole unit; `-` where there is no instant.
pub fn format_relative_time(reference: Timestamp, ts: Option<Timestamp>) -> (r: String)
    ensures
        r@ == relative_time_text(reference, ts),
{
    let instant = match ts {
        Some(instant) => instant,
        None => {
            return "-".to_owned();
        },
    };
    let seconds: i64 = elapsed_seconds(reference, instant);
    if seconds == 0 {
        return "now".to_owned();
    }
    if seconds < 60 {
        return count_ago(seconds, "s ago");
    }
    let minutes: i64 = seconds / 60;
    if minutes < 60 {
        return count_ago(minutes, "m ago");
    }
    let hours: i64 = minutes / 60;
    if hours < 24 {
        return count_ago(hours, "h ago");
    }
    count_ago(hours / 24, "d ago")
}

pub open spec fn signed_decimal(value: int) -> Seq<char> {
    if value < 0 {
        "-"@ + decimal((-value) as nat)
    } else {
        decimal(value as nat)
    }
}

/// A count of a unit, in the plural unless the count is one.
pub open spec fn plural_text(value: int, unit: Seq<char>) -> Seq<char> {
    if value == 1 {
        "1 "@ + unit + " ago"@
    } else {
        signed_decimal(value) + " "@ + unit + "s ago"@
    }
}

/// A count of a unit, in the plural unless the count is one.
pub fn plural_time(value: i64, unit: &str) -> (r: String)
    ensures
        r@ == plural_text(value as int, unit@),
{
    if value == 1 {
        let mut text = "1 ".to_owned();
        text.append(unit);
        text.append(" ago");
        return text;
    }
    let mut text = String::new();
    if value < 0 {
        text.append("-");
        let magnitude: i128 = -(value as i128);
        text.append(decimal_text(magnitude as u64).as_str());
    } else {
        text = decimal_text(value as u64);
    }
    proof {
        assert(text@ =~= signed_decimal(value as int));
    }
    text.append(" ");
    text.append(unit);
    text.append("s ago");
    text
}

/// A number of seconds told in words in its largest whole unit.
pub open spec fn relative_words(seconds: int) -> Seq<char> {
    if seconds == 0 {
        "now"@
    } else if seconds < 60 {
        plural_text(seconds, "second"@)
    } else if seconds < 3600 {
        plural_text(seconds / 60, "minute"@)
    } else if seconds < 86400 {
        plural_text(seconds / 3600, "hour"@)
    } else {
        plural_text(seconds / 86400, "day"@)
    }
}

/// How long ago `ts` was, in words and in its largest whole unit.
pub fn format_relative_time_long(reference: Timestamp, ts: Timestamp) -> (r: String)
    ensures
        r@ == relative_words(elapsed(reference, ts)),
{
    let seconds: i64 = elapsed_seconds(reference, ts);
    if seconds == 0 {
        return "now".to_owned();
    }
    if seconds < 60 {
        return plural_time(seconds, "second");
    }
    let minutes: i64 = seconds / 60;
    if minutes < 60 {
        return plural_time(minutes, "minute");
    }
    let hours: i64 = minutes / 60;
    if hours < 24 {
        return plural_time(hours, "hour");
    }
    plural_time(hours / 24, "day")
}

/// The calendar date and time of day of `ts`.
pub fn format_timestamp(ts: Timestamp) -> (r: String)
    ensures
        r@ == date_time_text(ts.seconds(), ts.nanos()),
{
    proof {
        use_type_invariant(&ts);
    }
    format_date_time(ts.seconds, ts.nanos)
}

} // verus!
