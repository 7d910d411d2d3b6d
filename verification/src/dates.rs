//! Times of last use: whole days since an RFC 3339 time, and the friendly
//! local rendering of such a time ("Today at 3:45 PM").

use vstd::prelude::*;
use vstd::arithmetic::div_mod::{lemma_fundamental_div_mod, lemma_fundamental_div_mod_converse};
use chrono::{DateTime, Datelike, Local, Utc};
use crate::text::decimal;

verus! {

/// The instant an RFC 3339 text denotes, as chrono's
/// `DateTime::parse_from_rfc3339` reads it: seconds since the Unix epoch
/// and the nanoseconds within that second, or `None` when the text does
/// not parse.
pub uninterp spec fn rfc3339_instant(text: Seq<char>) -> Option<(i64, u32)>;

/// Reads an RFC 3339 time with `chrono::DateTime::parse_from_rfc3339` and
/// gives its UTC `timestamp()` and `timestamp_subsec_nanos()`. The result
/// is a function of the text alone and is named `rfc3339_instant`.
#[verifier::external_body]
fn parse_rfc3339(text: &str) -> (r: Option<(i64, u32)>)
    ensures
        r == rfc3339_instant(text@),
{
    match DateTime::parse_from_rfc3339(text) {
        Ok(dt) => Some((dt.timestamp(), dt.timestamp_subsec_nanos())),
        Err(_) => None,
    }
}

/// The current time from `chrono::Utc::now`, as its `timestamp()` and
/// `timestamp_subsec_nanos()`. chrono builds it from the system clock's
/// duration since the epoch, whose nanoseconds stay below one second;
/// nothing else is claimed of the clock.
#[verifier::external_body]
fn now_instant() -> (r: (i64, u32))
    ensures
        r.1 < 1_000_000_000,
{
    let now = Utc::now();
    (now.timestamp(), now.timestamp_subsec_nanos())
}

/// Nanoseconds in a second, seconds in a day.
pub const NANOS_PER_SEC: u64 = 1_000_000_000;
pub const SECS_PER_DAY: u64 = 86400;

/// Seconds since midnight (UTC) of a timestamp.
pub open spec fn second_of_day(ts: int) -> int {
    ts % 86400
}

/// Whole seconds from `earlier` to `later`, truncated toward zero, as
/// chrono counts them for `(later - earlier).num_seconds()`: the difference
/// of the timestamps and of the nanoseconds, where nanoseconds of a second
/// or more (a leap second) extend the second they belong to.
pub open spec fn whole_seconds_between(later: (i64, u32), earlier: (i64, u32)) -> int {
    let leap: int = if second_of_day(later.0 as int) > second_of_day(earlier.0 as int)
        && earlier.1 >= 1_000_000_000 {
        1
    } else if second_of_day(later.0 as int) < second_of_day(earlier.0 as int) && later.1
        >= 1_000_000_000 {
        -1
    } else {
        0
    };
    let frac: int = later.1 - earlier.1;
    let secs: int = later.0 - earlier.0 + leap + frac / 1_000_000_000;
    if secs < 0 && frac % 1_000_000_000 > 0 {
        secs + 1
    } else {
        secs
    }
}

/// Division truncated toward zero, as Rust's `/` on signed integers.
pub open spec fn div_toward_zero(a: int, b: int) -> int {
    if a >= 0 {
        a / b
    } else {
        -((-a) / b)
    }
}

/// Whole days from `earlier` to `later`, truncated toward zero
/// (`TimeDelta::num_days`).
pub open spec fn whole_days_between(later: (i64, u32), earlier: (i64, u32)) -> int {
    div_toward_zero(whole_seconds_between(later, earlier), 86400)
}

/// Days since the last use at time `now`: none when no use is recorded
/// or its time is not RFC 3339.
pub open spec fn spec_days_since_use(last_used: Option<Seq<char>>, now: (i64, u32)) -> Option<
    int,
> {
    match last_used {
        None => None,
        Some(s) => match rfc3339_instant(s) {
            None => None,
            Some(t) => Some(whole_days_between(now, t)),
        },
    }
}

/// Floor division and remainder of `x` by `d`.
fn floor_div_mod(x: i128, d: u64) -> (r: (i128, i128))
    requires
        d > 0,
        -0x1_0000_0000_0000_0000_0000 < x < 0x1_0000_0000_0000_0000_0000,
    ensures
        r.0 == (x as int) / (d as int),
        r.1 == (x as int) % (d as int),
{
    let dd: u128 = d as u128;
    if x >= 0 {
        let y: u128 = x as u128;
        let q: u128 = y / dd;
        let m: u128 = y % dd;
        proof {
            lemma_fundamental_div_mod(y as int, d as int);
        }
        (q as i128, m as i128)
    } else {
        let y: u128 = (-x) as u128;
        let q: u128 = y / dd;
        let m: u128 = y % dd;
        proof {
            lemma_fundamental_div_mod(y as int, d as int);
            assert(q <= y) by {
                vstd::arithmetic::div_mod::lemma_div_is_ordered_by_denominator(y as int, 1, d as int);
            }
        }
        if m == 0 {
            proof {
                assert(x == (-(q as int)) * (d as int) + 0) by (nonlinear_arith)
                    requires
                        y == d * q + m,
                        m == 0,
                        x == -y,
                ;
                lemma_fundamental_div_mod_converse(x as int, d as int, -(q as int), 0);
            }
            (-(q as i128), 0)
        } else {
            proof {
                assert(x == (-(q as int) - 1) * (d as int) + (d - m)) by (nonlinear_arith)
                    requires
                        y == d * q + m,
                        x == -y,
                ;
                lemma_fundamental_div_mod_converse(x as int, d as int, -(q as int) - 1, d - m);
            }
            (-(q as i128) - 1, (dd - m) as i128)
        }
    }
}

/// Whole days from `earlier` to `later` (see `whole_days_between`).
pub fn days_between(later: (i64, u32), earlier: (i64, u32)) -> (r: i64)
    ensures
        r == whole_days_between(later, earlier),
{
    let sod_later: i128 = floor_div_mod(later.0 as i128, SECS_PER_DAY).1;
    let sod_earlier: i128 = floor_div_mod(earlier.0 as i128, SECS_PER_DAY).1;
    let leap: i128 = if sod_later > sod_earlier && earlier.1 >= 1_000_000_000 {
        1
    } else if sod_later < sod_earlier && later.1 >= 1_000_000_000 {
        -1
    } else {
        0
    };
    let frac: i128 = later.1 as i128 - earlier.1 as i128;
    let split: (i128, i128) = floor_div_mod(frac, NANOS_PER_SEC);
    let carry: i128 = split.0;
    let nanos: i128 = split.1;
    proof {
        assert(-5 <= carry <= 5) by (nonlinear_arith)
            requires
                carry == (frac as int) / 1_000_000_000int,
                -0x1_0000_0000 < frac < 0x1_0000_0000,
        ;
    }
    let secs: i128 = later.0 as i128 - earlier.0 as i128 + leap + carry;
    let whole: i128 = if secs < 0 && nanos > 0 {
        secs + 1
    } else {
        secs
    };
    let days: i128 = if whole >= 0 {
        floor_div_mod(whole, SECS_PER_DAY).0
    } else {
        -floor_div_mod(-whole, SECS_PER_DAY).0
    };
    proof {
        let w = whole as int;
        assert(-0x1_0000_0000_0000_0000 <= days <= 0x1_0000_0000_0000_0000) by (nonlinear_arith)
            requires
                w >= 0 ==> days == w / 86400,
                w < 0 ==> days == -((-w) / 86400),
                -0x4_0000_0000_0000_0000 < w < 0x4_0000_0000_0000_0000,
        ;
        assert(-0x8000_0000_0000_0000 <= days < 0x8000_0000_0000_0000) by (nonlinear_arith)
            requires
                w >= 0 ==> days == w / 86400,
                w < 0 ==> days == -((-w) / 86400),
                -0x4_0000_0000_0000_0000 < w < 0x4_0000_0000_0000_0000,
        ;
    }
    days as i64
}

/// Days since the last use, at time `now` (see `spec_days_since_use`).
pub fn days_since_use(last_used: Option<&str>, now: (i64, u32)) -> (r: Option<i64>)
    ensures
        match r {
            Some(d) => spec_days_since_use(
                match last_used {
                    Some(s) => Some(s@),
                    None => None,
                },
                now,
            ) == Some(d as int),
            None => spec_days_since_use(
                match last_used {
                    Some(s) => Some(s@),
                    None => None,
                },
                now,
            ) is None,
        },
{
    match last_used {
        None => None,
        Some(s) => match parse_rfc3339(s) {
            None => None,
            Some(t) => Some(days_between(now, t)),
        },
    }
}

/// Days since the last use, by the clock: none exactly when no use is
/// recorded or its time is not RFC 3339; otherwise the whole days from that
/// time to now (see `days_since_use`).
pub fn days_since_last_use(last_used: Option<&str>) -> (r: Option<i64>)
    ensures
        r is Some <==> (last_used matches Some(s) && rfc3339_instant(s@) is Some),
{
    let now = now_instant();
    days_since_use(last_used, now)
}

/// A time in the local time zone, as its friendly rendering needs it: its
/// date as a day number (`num_days_from_ce`), its year, and chrono's
/// renderings of its clock time ("3:45 PM"), weekday ("Mon"), month and
/// day ("Jan 15") and full date ("Jan 15, 2025").
pub struct LocalStamp {
    pub day_number: i32,
    pub year: i32,
    pub clock: String,
    pub weekday: String,
    pub month_day: String,
    pub full_date: String,
}

/// Today's local date: its day number and year, and the day number of the
/// day before (`None` on chrono's first representable day).
#[derive(Debug, Clone, Copy, PartialEq, Eq, Structural)]
pub struct LocalToday {
    pub day_number: i32,
    pub year: i32,
    pub yesterday: Option<i32>,
}

/// The abbreviated English month names chrono writes for `%b`, January
/// being month 1.
pub open spec fn month_abbrev(m: int) -> Seq<char> {
    if m == 1 {
        "Jan"@
    } else if m == 2 {
        "Feb"@
    } else if m == 3 {
        "Mar"@
    } else if m == 4 {
        "Apr"@
    } else if m == 5 {
        "May"@
    } else if m == 6 {
        "Jun"@
    } else if m == 7 {
        "Jul"@
    } else if m == 8 {
        "Aug"@
    } else if m == 9 {
        "Sep"@
    } else if m == 10 {
        "Oct"@
    } else if m == 11 {
        "Nov"@
    } else {
        "Dec"@
    }
}

/// The abbreviated English weekday names chrono writes for `%a`, Monday
/// being day 0.
pub open spec fn weekday_abbrev(w: int) -> Seq<char> {
    if w == 0 {
        "Mon"@
    } else if w == 1 {
        "Tue"@
    } else if w == 2 {
        "Wed"@
    } else if w == 3 {
        "Thu"@
    } else if w == 4 {
        "Fri"@
    } else if w == 5 {
        "Sat"@
    } else {
        "Sun"@
    }
}

/// `n` in decimal, zero-padded to two digits.
pub open spec fn two_digits(n: nat) -> Seq<char> {
    if n < 10 {
        "0"@ + decimal(n)
    } else {
        decimal(n)
    }
}

/// `n` in decimal, zero-padded to four digits.
pub open spec fn four_digits(n: nat) -> Seq<char> {
    if n < 10 {
        "000"@ + decimal(n)
    } else if n < 100 {
        "00"@ + decimal(n)
    } else if n < 1000 {
        "0"@ + decimal(n)
    } else {
        decimal(n)
    }
}

/// A year as chrono's `%Y` writes it: four digits from 0 to 9999, with a
/// sign before it otherwise.
pub open spec fn year_text(y: int) -> Seq<char> {
    if 0 <= y <= 9999 {
        four_digits(y as nat)
    } else if y > 9999 {
        "+"@ + decimal(y as nat)
    } else {
        "-"@ + four_digits((-y) as nat)
    }
}

/// A clock time as `%-I:%M %p` writes it: the hour from 1 to 12 without
/// padding, two-digit minutes, and AM or PM.
pub open spec fn clock_text(hour: int, minute: int, pm: bool) -> Seq<char> {
    decimal(hour as nat) + ":"@ + two_digits(minute as nat) + " "@ + if pm {
        "PM"@
    } else {
        "AM"@
    }
}

/// A month and day as `%b %-d` writes them: "Jan 15".
pub open spec fn month_day_text(month: int, day: int) -> Seq<char> {
    month_abbrev(month) + " "@ + decimal(day as nat)
}

/// What holds of every stamp chrono renders: the clock time, month and day
/// have the forms above, the full date is the month and day, a comma and
/// the year, and the weekday is that of the day number (day 1, the first
/// day of the Common Era, was a Monday).
pub open spec fn stamp_wf(s: LocalStamp) -> bool {
    &&& exists|hour: int, minute: int, pm: bool|
        1 <= hour <= 12 && 0 <= minute < 60 && s.clock@ == #[trigger] clock_text(hour, minute, pm)
    &&& exists|month: int, day: int|
        1 <= month <= 12 && 1 <= day <= 31 && s.month_day@ == #[trigger] month_day_text(month, day)
    &&& s.full_date@ == s.month_day@ + ", "@ + year_text(s.year as int)
    &&& s.weekday@ == weekday_abbrev((s.day_number - 1) % 7)
}

/// The local day number of a time `ts` (seconds since the Unix epoch),
/// whose UTC day is day 719163 of the Common Era plus the whole days since
/// the epoch, moved by a time-zone offset of less than a day.
pub open spec fn day_near(day_number: int, ts: int) -> bool {
    ts / 86400 + 719162 <= day_number <= ts / 86400 + 719164
}

/// Reads an RFC 3339 time with `DateTime::parse_from_rfc3339`, moves it
/// into the local time zone (`with_timezone(&Local)`) and renders its parts
/// with chrono's `format` ("%-I:%M %p", "%a", "%b %-d", "%b %-d, %Y"). It
/// gives a stamp exactly when the text parses. Which clock time and day
/// come out depends on the machine's time zone; what is claimed is the form
/// of the texts (`stamp_wf`, from chrono's English names and padding) and
/// that the local day is within a day of the UTC one (chrono's fixed
/// offsets stay under a day).
#[verifier::external_body]
fn local_stamp(text: &str) -> (r: Option<LocalStamp>)
    ensures
        match rfc3339_instant(text@) {
            Some(t) => r matches Some(s) && stamp_wf(s) && day_near(s.day_number as int, t.0 as int),
            None => r is None,
        },
{
    match DateTime::parse_from_rfc3339(text) {
        Ok(dt) => {
            let l = dt.with_timezone(&Local);
            Some(LocalStamp {
                day_number: l.date_naive().num_days_from_ce(),
                year: l.year(),
                clock: l.format("%-I:%M %p").to_string(),
                weekday: l.format("%a").to_string(),
                month_day: l.format("%b %-d").to_string(),
                full_date: l.format("%b %-d, %Y").to_string(),
            })
        },
        Err(_) => None,
    }
}

/// Today's date by the clock in the local time zone (`Local::now()`), with
/// the day before from `pred_opt`, which is the previous day number when
/// there is one; nothing else is claimed of the clock.
#[verifier::external_body]
fn local_today() -> (r: LocalToday)
    ensures
        r.yesterday matches Some(y) ==> y == r.day_number - 1,
{
    let today = Local::now().date_naive();
    let yesterday = match today.pred_opt() {
        Some(d) => Some(d.num_days_from_ce()),
        None => None,
    };
    LocalToday { day_number: today.num_days_from_ce(), year: today.year(), yesterday }
}

/// The friendly rendering of a time of last use: the raw text when it could
/// not be read; "Today at 3:45 PM" or "Yesterday at 3:45 PM"; the weekday,
/// "Mon at 3:45 PM", less than a week ago; "Jan 15 at 3:45 PM" in the same
/// year; otherwise "Jan 15, 2025".
pub open spec fn spec_friendly(raw: Seq<char>, stamp: Option<LocalStamp>, today: LocalToday) -> Seq<
    char,
> {
    match stamp {
        None => raw,
        Some(s) => {
            let yesterday: int = match today.yesterday {
                Some(y) => y as int,
                None => today.day_number as int,
            };
            if s.day_number == today.day_number {
                "Today at "@ + s.clock@
            } else if s.day_number == yesterday {
                "Yesterday at "@ + s.clock@
            } else if today.day_number - s.day_number < 7 {
                s.weekday@ + " at "@ + s.clock@
            } else if s.year == today.year {
                s.month_day@ + " at "@ + s.clock@
            } else {
                s.full_date@
            }
        },
    }
}

/// The friendly rendering of `raw` from its local stamp and today's date
/// (see `spec_friendly`).
pub fn friendly_datetime(raw: &str, stamp: Option<LocalStamp>, today: LocalToday) -> (r: String)
    ensures
        r@ == spec_friendly(raw@, stamp, today),
{
    match stamp {
        None => raw.to_string(),
        Some(s) => {
            let yesterday: i32 = match today.yesterday {
                Some(y) => y,
                None => today.day_number,
            };
            if s.day_number == today.day_number {
                let mut out = String::from_str("Today at ");
                out.append(s.clock.as_str());
                out
            } else if s.day_number == yesterday {
                let mut out = String::from_str("Yesterday at ");
                out.append(s.clock.as_str());
                out
            } else if (today.day_number as i64) - (s.day_number as i64) < 7 {
                let mut out = s.weekday;
                out.append(" at ");
                out.append(s.clock.as_str());
                out
            } else if s.year == today.year {
                let mut out = s.month_day;
                out.append(" at ");
                out.append(s.clock.as_str());
                out
            } else {
                s.full_date
            }
        },
    }
}

/// An RFC 3339 time rendered in the local time zone relative to today
/// (see `friendly_datetime`); text that is not RFC 3339 is shown as it is.
/// A time that parses is shown from a stamp of the form `stamp_wf` whose
/// day is within a day of its UTC one: "Today at 3:45 PM", "Yesterday at
/// 3:45 PM", "Mon at 3:45 PM", "Jan 15 at 3:45 PM" or "Jan 15, 2025";
/// which of them depends on the clock and the time zone.
pub fn format_friendly_datetime(rfc3339: &str) -> (r: String)
    ensures
        rfc3339_instant(rfc3339@) is None ==> r@ == rfc3339@,
        rfc3339_instant(rfc3339@) matches Some(t) ==> exists|s: LocalStamp, d: LocalToday|
            stamp_wf(s) && day_near(s.day_number as int, t.0 as int) && #[trigger] spec_friendly(
                rfc3339@,
                Some(s),
                d,
            ) == r@,
{
    let stamp = local_stamp(rfc3339);
    let today = local_today();
    let ghost g = stamp;
    let r = friendly_datetime(rfc3339, stamp, today);
    proof {
        if let Some(s) = g {
            assert(spec_friendly(rfc3339@, Some(s), today) == r@);
        }
    }
    r
}

} // verus!
