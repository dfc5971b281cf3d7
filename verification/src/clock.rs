//! Calendar time, held as plain fields, and its fixed human-readable
//! formatting: `"<Weekday>, <Month> <Day>, <Year>, <HH:MM:SS>"`, with the day
//! of the month space-padded to two characters.

use chrono::Datelike;
use chrono::Timelike;
use vstd::prelude::*;

verus! {

/// One local calendar time, already broken into fields. `weekday` counts from
/// Monday as 0 through Sunday as 6.
#[derive(Clone, Copy)]
pub struct Clock {
    pub year: i32,
    pub month: u8,
    pub day: u8,
    pub weekday: u8,
    pub hour: u8,
    pub minute: u8,
    pub second: u8,
}

impl Clock {
    /// Every field lies in its calendar range; the year stays well inside
    /// `i32`, so that negating it cannot overflow.
    pub open spec fn wf(&self) -> bool {
        &&& 1 <= self.month <= 12
        &&& 1 <= self.day <= 31
        &&& self.weekday < 7
        &&& self.hour < 24
        &&& self.minute < 60
        &&& self.second < 60
        &&& -1000000 <= self.year <= 1000000
    }
}

pub open spec fn digit(d: int) -> char {
    if d == 0 {
        '0'
    } else if d == 1 {
        '1'
    } else if d == 2 {
        '2'
    } else if d == 3 {
        '3'
    } else if d == 4 {
        '4'
    } else if d == 5 {
        '5'
    } else if d == 6 {
        '6'
    } else if d == 7 {
        '7'
    } else if d == 8 {
        '8'
    } else {
        '9'
    }
}

/// The decimal digits of `n`, most significant first, without padding.
pub open spec fn dec_digits(n: int) -> Seq<char>
    decreases n,
{
    if n < 10 {
        seq![digit(n)]
    } else {
        dec_digits(n / 10) + seq![digit(n % 10)]
    }
}

pub open spec fn two_digits(n: int) -> Seq<char> {
    seq![digit(n / 10), digit(n % 10)]
}

/// The day of the month, space-padded to width two.
pub open spec fn padded_day(d: int) -> Seq<char> {
    if d < 10 {
        seq![' ', digit(d)]
    } else {
        two_digits(d)
    }
}

pub open spec fn padded_year(y: int) -> Seq<char> {
    if y < 10 {
        seq!['0', '0', '0'] + dec_digits(y)
    } else if y < 100 {
        seq!['0', '0'] + dec_digits(y)
    } else if y < 1000 {
        seq!['0'] + dec_digits(y)
    } else {
        dec_digits(y)
    }
}

/// The year, zero-padded to at least four digits, with a leading minus sign
/// when negative.
pub open spec fn year_digits(y: int) -> Seq<char> {
    if y < 0 {
        seq!['-'] + padded_year(-y)
    } else {
        padded_year(y)
    }
}

pub open spec fn weekday_name(w: int) -> Seq<char> {
    if w == 0 {
        "Monday"@
    } else if w == 1 {
        "Tuesday"@
    } else if w == 2 {
        "Wednesday"@
    } else if w == 3 {
        "Thursday"@
    } else if w == 4 {
        "Friday"@
    } else if w == 5 {
        "Saturday"@
    } else {
        "Sunday"@
    }
}

pub open spec fn month_name(m: int) -> Seq<char> {
    if m == 1 {
        "January"@
    } else if m == 2 {
        "February"@
    } else if m == 3 {
        "March"@
    } else if m == 4 {
        "April"@
    } else if m == 5 {
        "May"@
    } else if m == 6 {
        "June"@
    } else if m == 7 {
        "July"@
    } else if m == 8 {
        "August"@
    } else if m == 9 {
        "September"@
    } else if m == 10 {
        "October"@
    } else if m == 11 {
        "November"@
    } else {
        "December"@
    }
}

/// The full timestamp line: weekday, month, space-padded day, year, and a
/// zero-padded 24-hour clock.
pub open spec fn formatted_time(c: Clock) -> Seq<char> {
    weekday_name(c.weekday as int) + ", "@ + month_name(c.month as int) + " "@ + padded_day(
        c.day as int,
    ) + ", "@ + year_digits(c.year as int) + ", "@ + two_digits(c.hour as int) + ":"@ + two_digits(
        c.minute as int,
    ) + ":"@ + two_digits(c.second as int)
}

fn digit_str(d: u8) -> (r: &'static str)
    requires
        d < 10,
    ensures
        r@ == seq![digit(d as int)],
{
    if d == 0 {
        proof {
            reveal_strlit("0");
        }
        "0"
    } else if d == 1 {
        proof {
            reveal_strlit("1");
        }
        "1"
    } else if d == 2 {
        proof {
            reveal_strlit("2");
        }
        "2"
    } else if d == 3 {
        proof {
            reveal_strlit("3");
        }
        "3"
    } else if d == 4 {
        proof {
            reveal_strlit("4");
        }
        "4"
    } else if d == 5 {
        proof {
            reveal_strlit("5");
        }
        "5"
    } else if d == 6 {
        proof {
            reveal_strlit("6");
        }
        "6"
    } else if d == 7 {
        proof {
            reveal_strlit("7");
        }
        "7"
    } else if d == 8 {
        proof {
            reveal_strlit("8");
        }
        "8"
    } else {
        proof {
            reveal_strlit("9");
        }
        "9"
    }
}

fn push_dec_digits(out: &mut String, n: u32)
    ensures
        final(out)@ == old(out)@ + dec_digits(n as int),
    decreases n,
{
    if n < 10 {
        out.append(digit_str(n as u8));
    } else {
        push_dec_digits(out, n / 10);
        out.append(digit_str((n % 10) as u8));
        proof {
            assert(out@ =~= old(out)@ + dec_digits(n as int));
        }
    }
}

fn push_two_digits(out: &mut String, n: u8)
    requires
        n < 100,
    ensures
        final(out)@ == old(out)@ + two_digits(n as int),
{
    out.append(digit_str(n / 10));
    out.append(digit_str(n % 10));
    proof {
        assert(out@ =~= old(out)@ + two_digits(n as int));
    }
}

fn push_padded_year(out: &mut String, y: u32)
    ensures
        final(out)@ == old(out)@ + padded_year(y as int),
{
    if y < 10 {
        out.append("000");
        proof {
            reveal_strlit("000");
        }
    } else if y < 100 {
        out.append("00");
        proof {
            reveal_strlit("00");
        }
    } else if y < 1000 {
        out.append("0");
        proof {
            reveal_strlit("0");
        }
    }
    push_dec_digits(out, y);
    proof {
        assert(out@ =~= old(out)@ + padded_year(y as int));
    }
}

fn weekday_str(w: u8) -> (r: &'static str)
    requires
        w < 7,
    ensures
        r@ == weekday_name(w as int),
{
    if w == 0 {
        "Monday"
    } else if w == 1 {
        "Tuesday"
    } else if w == 2 {
        "Wednesday"
    } else if w == 3 {
        "Thursday"
    } else if w == 4 {
        "Friday"
    } else if w == 5 {
        "Saturday"
    } else {
        "Sunday"
    }
}

fn month_str(m: u8) -> (r: &'static str)
    requires
        1 <= m <= 12,
    ensures
        r@ == month_name(m as int),
{
    if m == 1 {
        "January"
    } else if m == 2 {
        "February"
    } else if m == 3 {
        "March"
    } else if m == 4 {
        "April"
    } else if m == 5 {
        "May"
    } else if m == 6 {
        "June"
    } else if m == 7 {
        "July"
    } else if m == 8 {
        "August"
    } else if m == 9 {
        "September"
    } else if m == 10 {
        "October"
    } else if m == 11 {
        "November"
    } else {
        "December"
    }
}

/// Formats one calendar time exactly as `formatted_time` states, for example
/// `"Friday, December  1, 2017, 12:00:00"`.
pub fn format_time(c: &Clock) -> (r: String)
    requires
        c.wf(),
    ensures
        r@ == formatted_time(*c),
{
    let mut out = String::new();
    out.append(weekday_str(c.weekday));
    out.append(", ");
    out.append(month_str(c.month));
    out.append(" ");
    if c.day < 10 {
        out.append(" ");
        out.append(digit_str(c.day));
        proof {
            reveal_strlit(" ");
        }
    } else {
        push_two_digits(&mut out, c.day);
    }
    out.append(", ");
    if c.year < 0 {
        out.append("-");
        push_padded_year(&mut out, (0 - c.year) as u32);
        proof {
            reveal_strlit("-");
        }
    } else {
        push_padded_year(&mut out, c.year as u32);
    }
    out.append(", ");
    push_two_digits(&mut out, c.hour);
    out.append(":");
    push_two_digits(&mut out, c.minute);
    out.append(":");
    push_two_digits(&mut out, c.second);
    proof {
        assert(out@ =~= formatted_time(*c));
    }
    out
}

/// Relies on `chrono::Local::now` and chrono's `Datelike`/`Timelike`
/// accessors: the fields of any time chrono can hold lie in their calendar
/// ranges, and chrono's year always fits well inside `i32`. Nothing else is
/// assumed of the clock's reading.
#[verifier::external_body]
pub(crate) fn local_now() -> (c: Clock)
    ensures
        c.wf(),
{
    let now = chrono::Local::now();
    Clock {
        year: now.year(),
        month: now.month() as u8,
        day: now.day() as u8,
        weekday: now.weekday().num_days_from_monday() as u8,
        hour: now.hour() as u8,
        minute: now.minute() as u8,
        second: now.second() as u8,
    }
}

/// The current local time, formatted as `formatted_time` states for some
/// well-formed clock reading.
pub fn get_time() -> (r: String)
    ensures
        exists|c: Clock| #[trigger] c.wf() && r@ == formatted_time(c),
{
    let now = local_now();
    let r = format_time(&now);
    proof {
        assert(now.wf() && r@ == formatted_time(now));
    }
    r
}

} // verus!
