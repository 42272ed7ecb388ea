use vstd::prelude::*;
use chrono::{Datelike, Timelike};
use crate::summary::{decimal, push_decimal};

verus! {

/// A UTC instant at second granularity, held as calendar fields.
#[derive(Debug, Clone, Copy, PartialEq, Eq, Structural)]
pub struct RunTimestamp {
    pub year: i32,
    pub month: u32,
    pub day: u32,
    pub hour: u32,
    pub minute: u32,
    pub second: u32,
}

impl RunTimestamp {
    /// Every field lies in its calendar range.
    pub open spec fn wf(self) -> bool {
        &&& 1 <= self.month <= 12
        &&& 1 <= self.day <= 31
        &&& self.hour < 24
        &&& self.minute < 60
        &&& self.second < 60
    }

}

/// The character of a decimal digit.
pub open spec fn digit(d: int) -> char {
    if d == 0 {
        '0'
    } else if d == 1 {
        '1'
    } else if d == 2 {
        '2'
    } else if d == 3 {
        '3'
    } else if d == 4 {
        '4'
    } else if d == 5 {
        '5'
    } else if d == 6 {
        '6'
    } else if d == 7 {
        '7'
    } else if d == 8 {
        '8'
    } else {
        '9'
    }
}

pub open spec fn two_digits(n: int) -> Seq<char> {
    seq![digit(n / 10), digit(n % 10)]
}

pub open spec fn four_digits(n: int) -> Seq<char> {
    seq![digit(n / 1000), digit((n / 100) % 10), digit((n / 10) % 10), digit(n % 10)]
}

/// A year as chrono's `%Y` writes it: four digits for years 0 to 9999;
/// otherwise a sign, then the magnitude with at least four digits.
pub open spec fn year_text(y: int) -> Seq<char> {
    if 0 <= y <= 9999 {
        four_digits(y)
    } else {
        let m = if y < 0 {
            -y
        } else {
            y
        };
        seq![if y < 0 { '-' } else { '+' }] + if m < 10000 {
            four_digits(m)
        } else {
            decimal(m as nat)
        }
    }
}

/// `YYYY-MM-DD_HH:MM:SS`, each field zero-padded.
pub open spec fn timestamp_text(t: RunTimestamp) -> Seq<char> {
    year_text(t.year as int) + seq!['-'] + two_digits(t.month as int) + seq!['-']
        + two_digits(t.day as int) + seq!['_'] + two_digits(t.hour as int) + seq![':']
        + two_digits(t.minute as int) + seq![':'] + two_digits(t.second as int)
}

pub(crate) fn digit_text(d: u32) -> (r: &'static str)
    requires
        d < 10,
    ensures
        r@ == seq![digit(d as int)],
{
    proof {
        reveal_strlit("0");
        reveal_strlit("1");
        reveal_strlit("2");
        reveal_strlit("3");
        reveal_strlit("4");
        reveal_strlit("5");
        reveal_strlit("6");
        reveal_strlit("7");
        reveal_strlit("8");
        reveal_strlit("9");
    }
    match d {
        0 => "0",
        1 => "1",
        2 => "2",
        3 => "3",
        4 => "4",
        5 => "5",
        6 => "6",
        7 => "7",
        8 => "8",
        _ => "9",
    }
}

fn push_two_digits(s: &mut String, n: u32)
    requires
        n < 100,
    ensures
        final(s)@ == old(s)@ + two_digits(n as int),
{
    s.append(digit_text(n / 10));
    s.append(digit_text(n % 10));
}

fn push_four_digits(s: &mut String, n: u64)
    requires
        n < 10000,
    ensures
        final(s)@ == old(s)@ + four_digits(n as int),
{
    let n = n as u32;
    s.append(digit_text(n / 1000));
    s.append(digit_text((n / 100) % 10));
    s.append(digit_text((n / 10) % 10));
    s.append(digit_text(n % 10));
    assert(final(s)@ =~= old(s)@ + four_digits(n as int));
}

fn push_year(s: &mut String, y: i32)
    ensures
        final(s)@ == old(s)@ + year_text(y as int),
{
    if 0 <= y && y <= 9999 {
        push_four_digits(s, y as u64);
        return;
    }
    let m: u64 = if y < 0 {
        (-(y as i64)) as u64
    } else {
        y as u64
    };
    proof {
        reveal_strlit("-");
        reveal_strlit("+");
    }
    let ghost start = s@;
    if y < 0 {
        s.append("-");
    } else {
        s.append("+");
    }
    if m < 10000 {
        push_four_digits(s, m);
    } else {
        push_decimal(s, m);
    }
    assert(s@ =~= start + year_text(y as int));
}

fn push_text(s: &mut String, t: &str)
    ensures
        final(s)@ == old(s)@ + t@,
{
    s.append(t);
}

/// Relies on std::time::SystemTime::now, on chrono::DateTime::from_timestamp,
/// which gives `None` out of chrono's range and never panics, and on the
/// field accessors of chrono's `Datelike` and `Timelike`: month 1 to 12, day
/// 1 to 31, hour 0 to 23, minute and second 0 to 59. A clock that reads
/// before the Unix epoch gives `None`.
#[verifier::external_body]
pub(crate) fn utc_now() -> (r: Option<RunTimestamp>)
    ensures
        r matches Some(t) ==> t.wf(),
{
    let since = std::time::SystemTime::now().duration_since(std::time::UNIX_EPOCH).ok()?;
    let secs = i64::try_from(since.as_secs()).ok()?;
    let now = chrono::DateTime::from_timestamp(secs, since.subsec_nanos())?;
    Some(RunTimestamp {
        year: now.year(),
        month: now.month(),
        day: now.day(),
        hour: now.hour(),
        minute: now.minute(),
        second: now.second(),
    })
}

impl RunTimestamp {
    /// The current UTC time, or `None` where the clock cannot be read as one.
    pub fn now() -> (r: Option<RunTimestamp>)
        ensures
            r matches Some(t) ==> t.wf(),
    {
        utc_now()
    }

    /// The run label `YYYY-MM-DD_HH:MM:SS`, with the year as chrono's `%Y`
    /// writes it, or `None` where a field is out of its range.
    pub fn label(&self) -> (r: Option<String>)
        ensures
            r is Some <==> self.wf(),
            r matches Some(s) ==> s@ == timestamp_text(*self),
    {
        if !(1 <= self.month && self.month <= 12 && 1 <= self.day && self.day <= 31
            && self.hour < 24 && self.minute < 60 && self.second < 60) {
            return None;
        }
        let mut s = String::new();
        push_year(&mut s, self.year);
        assert(s@ =~= year_text(self.year as int));
        push_text(&mut s, "-");
        push_two_digits(&mut s, self.month);
        push_text(&mut s, "-");
        push_two_digits(&mut s, self.day);
        push_text(&mut s, "_");
        push_two_digits(&mut s, self.hour);
        push_text(&mut s, ":");
        push_two_digits(&mut s, self.minute);
        push_text(&mut s, ":");
        push_two_digits(&mut s, self.second);
        proof {
            reveal_strlit("-");
            reveal_strlit("_");
            reveal_strlit(":");
        }
        assert(s@ =~= timestamp_text(*self));
        Some(s)
    }
}

} // verus!
