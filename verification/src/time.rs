//! Calendar timestamps as plain values.
//!
//! The agent only needs a timestamp for record keeping (task creation and
//! completion times) and for deriving sortable backup file names, so a
//! timestamp is modelled as its calendar fields. Reading the clock is an
//! outside concern: the wrappers at the bottom obtain the current time from
//! the `chrono` crate and hand it over as plain fields.

use chrono::{Datelike, Timelike};
use vstd::prelude::*;

verus! {

/// A calendar timestamp with second resolution.
#[derive(Clone, Copy, PartialEq, Eq, Structural, Debug)]
pub struct Timestamp {
    pub year: i32,
    pub month: u8,
    pub day: u8,
    pub hour: u8,
    pub minute: u8,
    pub second: u8,
}

impl Timestamp {
    /// Field bounds of a calendar time. The year is unconstrained: the
    /// formatting routines are total in it.
    pub open spec fn wf(self) -> bool {
        &&& 1 <= self.month <= 12
        &&& 1 <= self.day <= 31
        &&& self.hour < 24
        &&& self.minute < 60
        &&& self.second < 60
    }

    pub fn new(year: i32, month: u8, day: u8, hour: u8, minute: u8, second: u8) -> (r: Timestamp)
        ensures
            r == (Timestamp { year, month, day, hour, minute, second }),
    {
        Timestamp { year, month, day, hour, minute, second }
    }

    /// Lexicographic order on the calendar fields.
    pub open spec fn spec_le(self, other: Timestamp) -> bool {
        if self.year != other.year {
            self.year < other.year
        } else if self.month != other.month {
            self.month < other.month
        } else if self.day != other.day {
            self.day < other.day
        } else if self.hour != other.hour {
            self.hour < other.hour
        } else if self.minute != other.minute {
            self.minute < other.minute
        } else {
            self.second <= other.second
        }
    }

    pub fn le(&self, other: &Timestamp) -> (r: bool)
        ensures
            r == self.spec_le(*other),
    {
        if self.year != other.year {
            self.year < other.year
        } else if self.month != other.month {
            self.month < other.month
        } else if self.day != other.day {
            self.day < other.day
        } else if self.hour != other.hour {
            self.hour < other.hour
        } else if self.minute != other.minute {
            self.minute < other.minute
        } else {
            self.second <= other.second
        }
    }
}

/// The decimal digit character for `d` in 0..=9.
pub open spec fn digit_char(d: int) -> char {
    if d == 0 {
        '0'
    } else if d == 1 {
        '1'
    } else if d == 2 {
        '2'
    } else if d == 3 {
        '3'
    } else if d == 4 {
        '4'
    } else if d == 5 {
        '5'
    } else if d == 6 {
        '6'
    } else if d == 7 {
        '7'
    } else if d == 8 {
        '8'
    } else {
        '9'
    }
}

/// Two decimal digits with a leading zero.
pub open spec fn spec_pad2(n: int) -> Seq<char>
    recommends
        0 <= n < 100,
{
    seq![digit_char(n / 10), digit_char(n % 10)]
}

/// Four decimal digits with leading zeros.
pub open spec fn spec_pad4(n: int) -> Seq<char>
    recommends
        0 <= n < 10000,
{
    seq![digit_char(n / 1000), digit_char((n / 100) % 10), digit_char((n / 10) % 10), digit_char(
        n % 10,
    )]
}

/// The year rendered as four digits: negative years collapse to `0000` and
/// larger years keep their last four digits, so rendering is total.
pub open spec fn spec_year4(y: int) -> Seq<char> {
    spec_pad4(if y < 0 {
        0
    } else {
        y % 10000
    })
}

/// The sortable second-resolution form of a timestamp:
/// `YYYYMMDD_HHMMSS`.
pub open spec fn spec_sortable(ts: Timestamp) -> Seq<char> {
    spec_year4(ts.year as int) + spec_pad2(ts.month as int) + spec_pad2(ts.day as int)
        + seq!['_'] + spec_pad2(ts.hour as int) + spec_pad2(ts.minute as int) + spec_pad2(
        ts.second as int,
    )
}

fn digit_str(d: u32) -> (r: &'static str)
    requires
        d < 10,
    ensures
        r@ =~= seq![digit_char(d as int)],
{
    let r: &'static str = match d {
        0 => "0",
        1 => "1",
        2 => "2",
        3 => "3",
        4 => "4",
        5 => "5",
        6 => "6",
        7 => "7",
        8 => "8",
        _ => "9",
    };
    proof {
        reveal_strlit("0");
        reveal_strlit("1");
        reveal_strlit("2");
        reveal_strlit("3");
        reveal_strlit("4");
        reveal_strlit("5");
        reveal_strlit("6");
        reveal_strlit("7");
        reveal_strlit("8");
        reveal_strlit("9");
    }
    r
}

fn push_pad2(out: &mut String, n: u32)
    requires
        n < 100,
    ensures
        final(out)@ == old(out)@ + spec_pad2(n as int),
{
    out.append(digit_str(n / 10));
    out.append(digit_str(n % 10));
    proof {
        assert(final(out)@ =~= old(out)@ + spec_pad2(n as int));
    }
}

fn push_pad4(out: &mut String, n: u32)
    requires
        n < 10000,
    ensures
        final(out)@ == old(out)@ + spec_pad4(n as int),
{
    out.append(digit_str(n / 1000));
    out.append(digit_str((n / 100) % 10));
    out.append(digit_str((n / 10) % 10));
    out.append(digit_str(n % 10));
    proof {
        assert(final(out)@ =~= old(out)@ + spec_pad4(n as int));
    }
}

impl Timestamp {
    /// Renders the timestamp in its sortable numeric form `YYYYMMDD_HHMMSS`,
    /// the stamp under which backups are filed.
    pub fn sortable(&self) -> (r: String)
        requires
            self.wf(),
        ensures
            r@ == spec_sortable(*self),
    {
        let mut out = String::new();
        let y: u32 = if self.year < 0 {
            0
        } else {
            (self.year as u32) % 10000
        };
        push_pad4(&mut out, y);
        push_pad2(&mut out, self.month as u32);
        push_pad2(&mut out, self.day as u32);
        out.append("_");
        proof {
            reveal_strlit("_");
            assert("_"@ =~= seq!['_']);
        }
        push_pad2(&mut out, self.hour as u32);
        push_pad2(&mut out, self.minute as u32);
        push_pad2(&mut out, self.second as u32);
        proof {
            assert(out@ =~= spec_sortable(*self));
        }
        out
    }
}

/// Relies on `chrono::Utc::now` and the `Datelike`/`Timelike` accessors:
/// `month` is in 1..=12, `day` in 1..=31, `hour` below 24, `minute` and
/// `second` below 60. Nothing is assumed about the clock's reading itself.
#[verifier::external_body]
pub(crate) fn now_utc() -> (r: Timestamp)
    ensures
        r.wf(),
{
    let t = chrono::Utc::now();
    Timestamp {
        year: t.year(),
        month: t.month() as u8,
        day: t.day() as u8,
        hour: t.hour() as u8,
        minute: t.minute() as u8,
        second: t.second() as u8,
    }
}

/// Relies on `chrono::Local::now` and the `Datelike`/`Timelike` accessors,
/// with the same field bounds as [`now_utc`]. Local time is what the backup
/// file names are stamped with.
#[verifier::external_body]
pub(crate) fn now_local() -> (r: Timestamp)
    ensures
        r.wf(),
{
    let t = chrono::Local::now();
    Timestamp {
        year: t.year(),
        month: t.month() as u8,
        day: t.day() as u8,
        hour: t.hour() as u8,
        minute: t.minute() as u8,
        second: t.second() as u8,
    }
}

} // verus!
