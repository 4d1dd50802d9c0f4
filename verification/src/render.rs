//! Text for the display: decoded fields formatted as the wall clock
//! shows them. Hours, minutes, seconds, month and day are zero-padded to
//! two digits; the year prints in full decimal; a day of the week prints
//! as its three-letter name, or as `***` when the register held no valid
//! day. Cursor positioning and the LCD transfer itself stay with the
//! display collaborator.

use vstd::prelude::*;

use crate::codec::DayOfWeek;
use crate::codec::Hours;

verus! {

/// The decimal digit character for a value 0-9.
pub open spec fn digit_char(d: u8) -> char {
    if d == 0 {
        '0'
    } else if d == 1 {
        '1'
    } else if d == 2 {
        '2'
    } else if d == 3 {
        '3'
    } else if d == 4 {
        '4'
    } else if d == 5 {
        '5'
    } else if d == 6 {
        '6'
    } else if d == 7 {
        '7'
    } else if d == 8 {
        '8'
    } else {
        '9'
    }
}

/// A byte value as text, zero-padded to two digits; a value past 99
/// (from a malformed BCD nibble) keeps all three of its digits.
pub open spec fn two_digit_chars(v: u8) -> Seq<char> {
    if v < 10 {
        seq!['0', digit_char(v)]
    } else if v < 100 {
        seq![digit_char((v / 10) as u8), digit_char((v % 10) as u8)]
    } else {
        seq![
            digit_char((v / 100) as u8),
            digit_char(((v / 10) % 10) as u8),
            digit_char((v % 10) as u8),
        ]
    }
}

/// A 16-bit value in plain decimal, without padding.
pub open spec fn decimal_chars(v: u16) -> Seq<char> {
    if v < 10 {
        seq![digit_char(v as u8)]
    } else if v < 100 {
        seq![digit_char((v / 10) as u8), digit_char((v % 10) as u8)]
    } else if v < 1000 {
        seq![
            digit_char((v / 100) as u8),
            digit_char(((v / 10) % 10) as u8),
            digit_char((v % 10) as u8),
        ]
    } else if v < 10000 {
        seq![
            digit_char((v / 1000) as u8),
            digit_char(((v / 100) % 10) as u8),
            digit_char(((v / 10) % 10) as u8),
            digit_char((v % 10) as u8),
        ]
    } else {
        seq![
            digit_char((v / 10000) as u8),
            digit_char(((v / 1000) % 10) as u8),
            digit_char(((v / 100) % 10) as u8),
            digit_char(((v / 10) % 10) as u8),
            digit_char((v % 10) as u8),
        ]
    }
}

/// The time line: hours, minutes and seconds, colon-separated and
/// zero-padded.
pub open spec fn time_chars(h: u8, m: u8, s: u8) -> Seq<char> {
    two_digit_chars(h) + seq![':'] + two_digit_chars(m) + seq![':'] + two_digit_chars(s)
}

/// The date line: year, month and day, dash-separated, the month and day
/// zero-padded.
pub open spec fn date_chars(y: u16, mo: u8, d: u8) -> Seq<char> {
    decimal_chars(y) + seq!['-'] + two_digit_chars(mo) + seq!['-'] + two_digit_chars(d)
}

/// The three-letter name of a day, or `***` for no valid day.
pub open spec fn day_name_chars(d: Option<DayOfWeek>) -> Seq<char> {
    match d {
        None => seq!['*', '*', '*'],
        Some(DayOfWeek::Mon) => seq!['M', 'o', 'n'],
        Some(DayOfWeek::Tue) => seq!['T', 'u', 'e'],
        Some(DayOfWeek::Wed) => seq!['W', 'e', 'd'],
        Some(DayOfWeek::Thu) => seq!['T', 'h', 'u'],
        Some(DayOfWeek::Fri) => seq!['F', 'r', 'i'],
        Some(DayOfWeek::Sat) => seq!['S', 'a', 't'],
        Some(DayOfWeek::Sun) => seq!['S', 'u', 'n'],
    }
}

/// The meridiem tag for an hours value: `AM` or `PM` in 12-hour mode,
/// nothing in 24-hour mode.
pub open spec fn meridiem_chars(h: Hours) -> Seq<char> {
    match h {
        Hours::Am(_) => seq!['A', 'M'],
        Hours::Pm(_) => seq!['P', 'M'],
        Hours::H24(_) => Seq::<char>::empty(),
    }
}

/// The numeric hour an hours value puts on the display.
pub open spec fn hour_number(h: Hours) -> u8 {
    match h {
        Hours::Am(v) => v,
        Hours::Pm(v) => v,
        Hours::H24(v) => v,
    }
}

/// The character for one decimal digit.
pub fn digit_text(d: u8) -> (r: &'static str)
    requires
        d <= 9,
    ensures
        r@ == seq![digit_char(d)],
{
    proof {
        reveal_strlit("0");
        reveal_strlit("1");
        reveal_strlit("2");
        reveal_strlit("3");
        reveal_strlit("4");
        reveal_strlit("5");
        reveal_strlit("6");
        reveal_strlit("7");
        reveal_strlit("8");
        reveal_strlit("9");
    }
    let r: &'static str = if d == 0 {
        "0"
    } else if d == 1 {
        "1"
    } else if d == 2 {
        "2"
    } else if d == 3 {
        "3"
    } else if d == 4 {
        "4"
    } else if d == 5 {
        "5"
    } else if d == 6 {
        "6"
    } else if d == 7 {
        "7"
    } else if d == 8 {
        "8"
    } else {
        "9"
    };
    proof {
        assert(r@ =~= seq![digit_char(d)]);
    }
    r
}

/// A byte value as text, zero-padded to two digits.
pub fn render_two_digits(v: u8) -> (r: String)
    ensures
        r@ == two_digit_chars(v),
{
    let mut s = String::new();
    if v < 10 {
        s.append(digit_text(0));
        s.append(digit_text(v));
    } else if v < 100 {
        proof {
            assert(v / 10 <= 9 && v % 10 <= 9) by (bit_vector)
                requires
                    v < 100,
            ;
        }
        s.append(digit_text(v / 10));
        s.append(digit_text(v % 10));
    } else {
        proof {
            assert(v / 100 <= 9 && (v / 10) % 10 <= 9 && v % 10 <= 9) by (bit_vector);
        }
        s.append(digit_text(v / 100));
        s.append(digit_text((v / 10) % 10));
        s.append(digit_text(v % 10));
    }
    proof {
        assert(s@ =~= two_digit_chars(v));
    }
    s
}

/// A 16-bit value as plain decimal text.
pub fn render_decimal(v: u16) -> (r: String)
    ensures
        r@ == decimal_chars(v),
{
    let mut s = String::new();
    if v < 10 {
        s.append(digit_text(v as u8));
    } else if v < 100 {
        proof {
            assert(v / 10 <= 9 && v % 10 <= 9) by (bit_vector)
                requires
                    v < 100,
            ;
        }
        s.append(digit_text((v / 10) as u8));
        s.append(digit_text((v % 10) as u8));
    } else if v < 1000 {
        proof {
            assert(v / 100 <= 9 && (v / 10) % 10 <= 9 && v % 10 <= 9) by (bit_vector)
                requires
                    v < 1000,
            ;
        }
        s.append(digit_text((v / 100) as u8));
        s.append(digit_text(((v / 10) % 10) as u8));
        s.append(digit_text((v % 10) as u8));
    } else if v < 10000 {
        proof {
            assert(v / 1000 <= 9 && (v / 100) % 10 <= 9 && (v / 10) % 10 <= 9 && v % 10 <= 9)
                by (bit_vector)
                requires
                    v < 10000,
            ;
        }
        s.append(digit_text((v / 1000) as u8));
        s.append(digit_text(((v / 100) % 10) as u8));
        s.append(digit_text(((v / 10) % 10) as u8));
        s.append(digit_text((v % 10) as u8));
    } else {
        proof {
            assert(v / 10000 <= 9 && (v / 1000) % 10 <= 9 && (v / 100) % 10 <= 9 && (v / 10) % 10
                <= 9 && v % 10 <= 9) by (bit_vector);
        }
        s.append(digit_text((v / 10000) as u8));
        s.append(digit_text(((v / 1000) % 10) as u8));
        s.append(digit_text(((v / 100) % 10) as u8));
        s.append(digit_text(((v / 10) % 10) as u8));
        s.append(digit_text((v % 10) as u8));
    }
    proof {
        assert(s@ =~= decimal_chars(v));
    }
    s
}

/// The time line `HH:MM:SS`.
pub fn render_time(h: u8, m: u8, s: u8) -> (r: String)
    ensures
        r@ == time_chars(h, m, s),
{
    let mut t = render_two_digits(h);
    t.append(":");
    let mins = render_two_digits(m);
    t.append(mins.as_str());
    t.append(":");
    let secs = render_two_digits(s);
    t.append(secs.as_str());
    proof {
        reveal_strlit(":");
        assert(t@ =~= time_chars(h, m, s));
    }
    t
}

/// The date line `YYYY-MM-DD`.
pub fn render_date(y: u16, mo: u8, d: u8) -> (r: String)
    ensures
        r@ == date_chars(y, mo, d),
{
    let mut t = render_decimal(y);
    t.append("-");
    let month = render_two_digits(mo);
    t.append(month.as_str());
    t.append("-");
    let day = render_two_digits(d);
    t.append(day.as_str());
    proof {
        reveal_strlit("-");
        assert(t@ =~= date_chars(y, mo, d));
    }
    t
}

/// The three-letter day name, or `***` for no valid day.
pub fn day_of_week_text(d: Option<DayOfWeek>) -> (r: &'static str)
    ensures
        r@ == day_name_chars(d),
{
    proof {
        reveal_strlit("***");
        reveal_strlit("Mon");
        reveal_strlit("Tue");
        reveal_strlit("Wed");
        reveal_strlit("Thu");
        reveal_strlit("Fri");
        reveal_strlit("Sat");
        reveal_strlit("Sun");
    }
    let r: &'static str = match d {
        None => "***",
        Some(DayOfWeek::Mon) => "Mon",
        Some(DayOfWeek::Tue) => "Tue",
        Some(DayOfWeek::Wed) => "Wed",
        Some(DayOfWeek::Thu) => "Thu",
        Some(DayOfWeek::Fri) => "Fri",
        Some(DayOfWeek::Sat) => "Sat",
        Some(DayOfWeek::Sun) => "Sun",
    };
    proof {
        assert(r@ =~= day_name_chars(d));
    }
    r
}

/// The meridiem tag: `AM`, `PM`, or empty in 24-hour mode.
pub fn meridiem_text(h: Hours) -> (r: &'static str)
    ensures
        r@ == meridiem_chars(h),
{
    proof {
        reveal_strlit("AM");
        reveal_strlit("PM");
        reveal_strlit("");
    }
    let r: &'static str = match h {
        Hours::Am(_) => "AM",
        Hours::Pm(_) => "PM",
        Hours::H24(_) => "",
    };
    proof {
        assert(r@ =~= meridiem_chars(h));
    }
    r
}

/// The numeric hour an hours value puts on the display.
pub fn hours_display_value(h: Hours) -> (r: u8)
    ensures
        r == hour_number(h),
{
    match h {
        Hours::Am(v) => v,
        Hours::Pm(v) => v,
        Hours::H24(v) => v,
    }
}

} // verus!
