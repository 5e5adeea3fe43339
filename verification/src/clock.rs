//! Local civil time behind the chrono crate, and the relative-time
//! text the created/modified columns show.
use vstd::prelude::*;
use vstd::arithmetic::div_mod::lemma_mod_multiples_vanish;

use crate::fmt_num::{
    signed_dec_chars, two_digit_chars, year_chars, i64_string, two_digit_string, year_string,
};

verus! {

/// Seconds either side of the Unix epoch that stay inside the chrono
/// calendar's range (its calendar spans roughly 262000 years).
pub const CIVIL_RANGE: i64 = 8000000000000;

/// A moment's local civil fields: calendar date and 12-hour clock.
#[derive(Clone, Copy, PartialEq, Eq, Structural, Debug)]
pub struct CivilTime {
    pub year: i32,
    pub month: u32,
    pub day: u32,
    pub hour12: u32,
    pub minute: u32,
    pub pm: bool,
}

/// The field ranges chrono documents for its calendar accessors.
pub open spec fn civil_wf(c: CivilTime) -> bool {
    &&& 1 <= c.month <= 12
    &&& 1 <= c.day <= 31
    &&& 1 <= c.hour12 <= 12
    &&& c.minute <= 59
    &&& -300000 <= c.year <= 300000
}

/// Relies on std::time::SystemTime::now; duration_since against the
/// Unix epoch converts its reading into whole seconds and a flag for
/// the side of the epoch the clock stands on. None of the calls can
/// panic: a clock before the epoch comes back through the error's
/// own duration.
#[verifier::external_body]
fn clock_since_epoch() -> (r: (bool, u64)) {
    match std::time::SystemTime::now().duration_since(std::time::UNIX_EPOCH) {
        Ok(since) => (false, since.as_secs()),
        Err(before) => (true, before.duration().as_secs()),
    }
}

/// The present moment as whole seconds since the Unix epoch, negative
/// where the clock stands before it; the rare reading beyond the i64
/// range saturates. The clock's reading is outside any contract.
pub(crate) fn now_epoch_seconds() -> i64 {
    let (before_epoch, seconds) = clock_since_epoch();
    if before_epoch {
        if seconds >= 0x8000000000000000u64 {
            i64::MIN
        } else {
            -(seconds as i64)
        }
    } else {
        if seconds > 0x7fffffffffffffffu64 {
            i64::MAX
        } else {
            seconds as i64
        }
    }
}

/// Relies on chrono::TimeZone::timestamp_opt for Local and on the
/// Datelike/Timelike accessors: the local calendar date and clock of
/// an epoch second. chrono documents that every in-range moment maps
/// to exactly one local time, and the accessor ranges (month 1-12,
/// day 1-31, hour 1-12 with an afternoon flag, minute 0-59, year
/// within its roughly 262000-year calendar).
#[verifier::external_body]
pub(crate) fn local_civil(epoch_seconds: i64) -> (c: CivilTime)
    requires
        -CIVIL_RANGE <= epoch_seconds <= CIVIL_RANGE,
    ensures
        civil_wf(c),
{
    let dt = chrono::TimeZone::timestamp_opt(&chrono::Local, epoch_seconds, 0).unwrap();
    let (pm, hour12) = chrono::Timelike::hour12(&dt);
    CivilTime {
        year: chrono::Datelike::year(&dt),
        month: chrono::Datelike::month(&dt),
        day: chrono::Datelike::day(&dt),
        hour12,
        minute: chrono::Timelike::minute(&dt),
        pm,
    }
}

/// Whole minutes in `delta` seconds, rounded toward zero.
pub open spec fn whole_minutes(delta: int) -> int {
    if delta >= 0 {
        delta / 60
    } else {
        -((-delta) / 60)
    }
}

/// Whether two moments fall on the same calendar date.
pub open spec fn same_date(a: CivilTime, b: CivilTime) -> bool {
    a.year == b.year && a.month == b.month && a.day == b.day
}

/// A leap year of the proleptic Gregorian calendar.
pub open spec fn is_leap_year(year: int) -> bool {
    year % 4 == 0 && (year % 100 != 0 || year % 400 == 0)
}

/// The days a calendar month holds.
pub open spec fn days_in_month_of(year: int, month: int) -> int {
    if month == 2 {
        if is_leap_year(year) {
            29
        } else {
            28
        }
    } else if month == 4 || month == 6 || month == 9 || month == 11 {
        30
    } else {
        31
    }
}

/// The calendar date one day before the given one.
pub open spec fn previous_day(year: int, month: int, day: int) -> (int, int, int) {
    if day > 1 {
        (year, month, day - 1)
    } else if month > 1 {
        (year, month - 1, days_in_month_of(year, month - 1))
    } else {
        (year - 1, 12, 31)
    }
}

/// A 12-hour clock reading: `03:05 PM`.
pub open spec fn clock_chars(c: CivilTime) -> Seq<char> {
    two_digit_chars(c.hour12 as nat) + seq![':'] + two_digit_chars(c.minute as nat) + seq![' ']
        + (if c.pm {
        "PM"@
    } else {
        "AM"@
    })
}

/// A full date and clock reading: `07/08/2001 03:05 PM`.
pub open spec fn full_date_chars(c: CivilTime) -> Seq<char> {
    two_digit_chars(c.month as nat) + seq!['/'] + two_digit_chars(c.day as nat) + seq!['/']
        + year_chars(c.year as int) + seq![' '] + clock_chars(c)
}

/// The relative-time text for a moment `delta` seconds in the past:
/// seconds or minutes ago within the hour, the clock for the present
/// calendar date and for the one right before it, otherwise the full
/// date.
pub open spec fn time_text_chars(delta: int, tc: CivilTime, nc: CivilTime) -> Seq<char> {
    if whole_minutes(delta) < 60 {
        if delta < 60 {
            signed_dec_chars(delta) + " seconds ago"@
        } else {
            signed_dec_chars(whole_minutes(delta)) + " minutes ago"@
        }
    } else if same_date(tc, nc) {
        "Today at "@ + clock_chars(tc)
    } else if (tc.year as int, tc.month as int, tc.day as int) == previous_day(
        nc.year as int,
        nc.month as int,
        nc.day as int,
    ) {
        "Yesterday at "@ + clock_chars(tc)
    } else {
        full_date_chars(tc)
    }
}

/// Whether a year is a leap year. Shifting by a multiple of 400
/// keeps every test on a non-negative number.
fn is_leap(year: i32) -> (r: bool)
    requires
        -300000 <= year <= 300000,
    ensures
        r == is_leap_year(year as int),
{
    let shifted: i64 = year as i64 + 400000;
    proof {
        lemma_mod_multiples_vanish(100000, year as int, 4);
        lemma_mod_multiples_vanish(4000, year as int, 100);
        lemma_mod_multiples_vanish(1000, year as int, 400);
    }
    shifted % 4 == 0 && (shifted % 100 != 0 || shifted % 400 == 0)
}

/// The calendar date one day before `c`'s.
fn day_before(c: &CivilTime) -> (r: (i32, u32, u32))
    requires
        civil_wf(*c),
    ensures
        (r.0 as int, r.1 as int, r.2 as int) == previous_day(
            c.year as int,
            c.month as int,
            c.day as int,
        ),
{
    if c.day > 1 {
        (c.year, c.month, c.day - 1)
    } else if c.month > 1 {
        let month = c.month - 1;
        let day: u32 = if month == 2 {
            if is_leap(c.year) {
                29
            } else {
                28
            }
        } else if month == 4 || month == 6 || month == 9 || month == 11 {
            30
        } else {
            31
        };
        (c.year, month, day)
    } else {
        (c.year - 1, 12, 31)
    }
}

/// The clock reading of a moment.
pub fn clock_string(c: &CivilTime) -> (r: String)
    requires
        civil_wf(*c),
    ensures
        r@ == clock_chars(*c),
{
    let mut s = two_digit_string(c.hour12 as u64);
    s.append(":");
    let m = two_digit_string(c.minute as u64);
    s.append(m.as_str());
    s.append(" ");
    s.append(if c.pm { "PM" } else { "AM" });
    proof {
        reveal_strlit(":");
        reveal_strlit(" ");
        assert(s@ =~= clock_chars(*c));
    }
    s
}

/// The full date and clock reading of a moment.
pub fn full_date_string(c: &CivilTime) -> (r: String)
    requires
        civil_wf(*c),
    ensures
        r@ == full_date_chars(*c),
{
    let mut s = two_digit_string(c.month as u64);
    s.append("/");
    let d = two_digit_string(c.day as u64);
    s.append(d.as_str());
    s.append("/");
    let y = year_string(c.year as i64);
    s.append(y.as_str());
    s.append(" ");
    let clock = clock_string(c);
    s.append(clock.as_str());
    proof {
        reveal_strlit("/");
        reveal_strlit(" ");
        assert(s@ =~= full_date_chars(*c));
    }
    s
}

/// The relative-time text for a moment, from the seconds since it and
/// the civil readings of the moment and of now.
pub fn time_text(delta: i64, tc: &CivilTime, nc: &CivilTime) -> (r: String)
    requires
        civil_wf(*tc),
        civil_wf(*nc),
        -0x4000000000000000 < delta < 0x4000000000000000,
    ensures
        r@ == time_text_chars(delta as int, *tc, *nc),
{
    let mins: i64 = if delta >= 0 {
        delta / 60
    } else {
        -((-delta) / 60)
    };
    if mins < 60 {
        if delta < 60 {
            let mut s = i64_string(delta);
            s.append(" seconds ago");
            proof {
                assert(s@ =~= time_text_chars(delta as int, *tc, *nc));
            }
            s
        } else {
            let mut s = i64_string(mins);
            s.append(" minutes ago");
            proof {
                assert(s@ =~= time_text_chars(delta as int, *tc, *nc));
            }
            s
        }
    } else if tc.year == nc.year && tc.month == nc.month && tc.day == nc.day {
        let mut s = String::from_str("Today at ");
        let clock = clock_string(tc);
        s.append(clock.as_str());
        proof {
            assert(s@ =~= time_text_chars(delta as int, *tc, *nc));
        }
        s
    } else {
        let (before_year, before_month, before_day) = day_before(nc);
        if tc.year == before_year && tc.month == before_month && tc.day == before_day {
            let mut s = String::from_str("Yesterday at ");
            let clock = clock_string(tc);
            s.append(clock.as_str());
            proof {
                assert(s@ =~= time_text_chars(delta as int, *tc, *nc));
            }
            s
        } else {
            full_date_string(tc)
        }
    }
}

} // verus!
