//! Codec for the clock chip's register file.
//!
//! The chip exposes the current time as seven packed-BCD registers:
//! seconds, minutes, hours, day-of-week, day-of-month, month (sharing a
//! byte with the century flag) and the low two digits of the year. The
//! hours register additionally carries a 12/24-hour mode bit and, in
//! 12-hour mode, an AM/PM bit. Decoding is total: malformed nibbles give
//! an out-of-range number, an out-of-range day-of-week index gives `None`,
//! never an error.

use vstd::prelude::*;

verus! {

/// An hours value as the chip represents it: either a 24-hour value
/// (0-23) or a 12-hour value (1-12) tagged AM or PM.
#[derive(Clone, Copy, Debug, PartialEq, Eq, Structural)]
pub enum Hours {
    Am(u8),
    Pm(u8),
    H24(u8),
}

/// A named day of the week; the chip stores it as a 1-based index.
#[derive(Clone, Copy, Debug, PartialEq, Eq, Structural)]
pub enum DayOfWeek {
    Mon,
    Tue,
    Wed,
    Thu,
    Fri,
    Sat,
    Sun,
}

/// A raw 7-register snapshot as read from the chip, immutable once
/// captured. Registers in order: seconds, minutes, hours, day-of-week,
/// day-of-month, month + century bit, year (low two digits).
pub struct DateTime {
    data: [u8; 7],
}

/// The numeric value of a packed-BCD byte: the low nibble is the units
/// digit, the high nibble the tens digit. No nibble is validated, so a
/// nibble above 9 simply yields a value above 99.
pub open spec fn bcd_value(b: u8) -> int {
    (b & 0xf) + (b >> 4) * 10
}

/// The packed-BCD byte for a numeric value: units in the low nibble,
/// tens (masked to four bits) in the high nibble. Values above 99 spill
/// the excess tens into the mask, exactly as the chip's registers would.
pub open spec fn bcd_byte(v: u8) -> u8 {
    ((v % 10) + (((v / 10) & 0xf) << 4)) as u8
}

/// Addition that wraps around the byte range, mirroring the chip's
/// behaviour when an encode offset runs past 255.
pub open spec fn wrap_add_byte(v: u8, k: u8) -> u8 {
    if v + k > 255 {
        (v + k - 256) as u8
    } else {
        (v + k) as u8
    }
}

/// Whether the hours register selects 12-hour mode.
pub open spec fn twelve_hour_mode(b: u8) -> bool {
    b & 0x40 != 0
}

/// Whether the hours register's AM/PM bit selects PM (12-hour mode only).
pub open spec fn pm_selected(b: u8) -> bool {
    b & 0x20 != 0
}

/// The hour value carried by an hours register in 12-hour mode: the low
/// nibble plus 10 when the ten-hour bit is set.
pub open spec fn twelve_hour_value(b: u8) -> u8 {
    ((b & 0xf) + if b & 0x10 != 0 {
        10int
    } else {
        0int
    }) as u8
}

/// The hour value carried by an hours register in 24-hour mode: the two
/// ten-hour bits weigh ten each, the low nibble is the units digit.
pub open spec fn twenty_four_hour_value(b: u8) -> u8 {
    (((b & 0x30) >> 4) * 10 + (b & 0xf)) as u8
}

/// The structured hours value denoted by an hours register.
pub open spec fn hours_of_byte(b: u8) -> Hours {
    if twelve_hour_mode(b) {
        if pm_selected(b) {
            Hours::Pm(twelve_hour_value(b))
        } else {
            Hours::Am(twelve_hour_value(b))
        }
    } else {
        Hours::H24(twenty_four_hour_value(b))
    }
}

/// The hours register byte for a structured hours value. A 24-hour value
/// is BCD-packed directly; AM and PM values ride offsets of 40 and 60,
/// which land in the tens digit and set the 12-hour-mode bit (and for PM
/// the AM/PM bit) alongside the BCD hour.
pub open spec fn byte_of_hours(h: Hours) -> u8 {
    match h {
        Hours::H24(v) => bcd_byte(v),
        Hours::Am(v) => bcd_byte(wrap_add_byte(v, 40)),
        Hours::Pm(v) => bcd_byte(wrap_add_byte(v, 60)),
    }
}

/// The 0-based index of a day of the week.
pub open spec fn day_index(d: DayOfWeek) -> u8 {
    match d {
        DayOfWeek::Mon => 0,
        DayOfWeek::Tue => 1,
        DayOfWeek::Wed => 2,
        DayOfWeek::Thu => 3,
        DayOfWeek::Fri => 4,
        DayOfWeek::Sat => 5,
        DayOfWeek::Sun => 6,
    }
}

/// The day of the week with a given 0-based index, if the index is in
/// range.
pub open spec fn day_of_index(i: u8) -> Option<DayOfWeek> {
    if i == 0 {
        Some(DayOfWeek::Mon)
    } else if i == 1 {
        Some(DayOfWeek::Tue)
    } else if i == 2 {
        Some(DayOfWeek::Wed)
    } else if i == 3 {
        Some(DayOfWeek::Thu)
    } else if i == 4 {
        Some(DayOfWeek::Fri)
    } else if i == 5 {
        Some(DayOfWeek::Sat)
    } else if i == 6 {
        Some(DayOfWeek::Sun)
    } else {
        None
    }
}

/// The day of the week denoted by the chip's 1-based day register; 0 and
/// anything above 7 denote no valid day.
pub open spec fn day_of_byte(b: u8) -> Option<DayOfWeek> {
    if 1 <= b && b <= 7 {
        day_of_index((b - 1) as u8)
    } else {
        None
    }
}

/// The month number denoted by the month register, with the century bit
/// masked out before the BCD decode.
pub open spec fn month_value(b: u8) -> int {
    bcd_value(b & 0x7f)
}

/// Whether the month register's century bit is set (year in the 2000s).
pub open spec fn century_set(b: u8) -> bool {
    b & 0x80 != 0
}

/// The 4-digit year denoted by the year register together with the month
/// register's century bit.
pub open spec fn year_value(month_byte: u8, year_byte: u8) -> int {
    bcd_value(year_byte) + if century_set(month_byte) {
        2000int
    } else {
        1900int
    }
}

/// The month register byte for a month and a year: the century bit rides
/// an offset of 80, which BCD-packs into the register's top bit when the
/// year is in the 2000s.
pub open spec fn month_byte_of(year: u16, month: u8) -> u8 {
    if year >= 2000 {
        bcd_byte(wrap_add_byte(month, 80))
    } else {
        bcd_byte(month)
    }
}

/// The year register byte for a year: its low two decimal digits,
/// BCD-packed.
pub open spec fn year_byte_of(year: u16) -> u8 {
    bcd_byte((year % 100) as u8)
}

/// The day-of-week register byte for a 0-based index: the index plus one,
/// BCD-packed.
pub open spec fn day_byte_of(idx: u8) -> u8 {
    bcd_byte(wrap_add_byte(idx, 1))
}

/// Decodes a packed-BCD byte; never fails, out-of-range nibbles give an
/// out-of-range value.
pub fn decode_bcd(b: u8) -> (r: u8)
    ensures
        r == bcd_value(b),
{
    proof {
        assert((b & 0xf) <= 15 && (b >> 4) <= 15) by (bit_vector);
    }
    (b & 0xf) + (b >> 4) * 10
}

/// Packs a value into BCD; tens above 15 are masked away, as the chip's
/// four-bit tens field would drop them.
pub fn encode_bcd(v: u8) -> (r: u8)
    ensures
        r == bcd_byte(v),
{
    let low: u8 = v % 10;
    let high: u8 = (v / 10) & 0xf;
    proof {
        assert(v % 10 <= 9 && ((v / 10) & 0xf) <= 15 && (((v / 10) & 0xf) << 4) <= 240)
            by (bit_vector);
    }
    low + (high << 4)
}

/// Encodes a structured hours value into the hours register byte. AM adds
/// 40 and PM adds 60 before BCD packing, setting the mode and AM/PM bits
/// together with the hour digits; out-of-range hour values wrap silently.
pub fn encode_hours(hours: Hours) -> (r: u8)
    ensures
        r == byte_of_hours(hours),
{
    match hours {
        Hours::H24(v) => encode_bcd(v),
        Hours::Am(v) => encode_bcd(v.wrapping_add(40)),
        Hours::Pm(v) => encode_bcd(v.wrapping_add(60)),
    }
}

/// Encodes a 0-based day-of-week index into the chip's 1-based register
/// byte.
pub fn encode_day_of_week(idx: u8) -> (r: u8)
    ensures
        r == day_byte_of(idx),
{
    encode_bcd(idx.wrapping_add(1))
}

/// Encodes a year and month into the month register byte (century bit
/// included) and the year register byte, in that order.
pub fn encode_year_and_month(year: u16, month: u8) -> (r: (u8, u8))
    ensures
        r.0 == month_byte_of(year, month),
        r.1 == year_byte_of(year),
{
    let month_byte: u8 = if year >= 2000 {
        encode_bcd(month.wrapping_add(80))
    } else {
        encode_bcd(month)
    };
    let year_byte: u8 = encode_bcd((year % 100) as u8);
    (month_byte, year_byte)
}

/// Whether an hours value is within the range the chip's registers are
/// meant to carry: 0-23 in 24-hour mode, 1-12 with AM or PM.
pub open spec fn hours_in_range(h: Hours) -> bool {
    match h {
        Hours::H24(v) => v <= 23,
        Hours::Am(v) => 1 <= v && v <= 12,
        Hours::Pm(v) => 1 <= v && v <= 12,
    }
}

/// BCD round trip: any value up to 99 survives packing into a register
/// byte and decoding back.
pub proof fn lemma_bcd_round_trip(v: u8)
    requires
        v <= 99,
    ensures
        bcd_value(bcd_byte(v)) == v,
{
    assert(bcd_value(bcd_byte(v)) == v) by (bit_vector)
        requires
            v <= 99,
    ;
}

/// Hours round trip: every in-range hours value — 24-hour 0-23, AM 1-12,
/// PM 1-12 — survives encoding into the hours register and decoding
/// back, mode and meridiem included.
pub proof fn lemma_hours_round_trip(h: Hours)
    requires
        hours_in_range(h),
    ensures
        hours_of_byte(byte_of_hours(h)) == h,
{
    match h {
        Hours::H24(v) => {
            assert(!twelve_hour_mode(bcd_byte(v)) && twenty_four_hour_value(bcd_byte(v)) == v)
                by (bit_vector)
                requires
                    v <= 23,
            ;
        }
        Hours::Am(v) => {
            let w = wrap_add_byte(v, 40);
            assert(w == v + 40);
            assert(twelve_hour_mode(bcd_byte(w)) && !pm_selected(bcd_byte(w)) && twelve_hour_value(
                bcd_byte(w),
            ) == v) by (bit_vector)
                requires
                    1 <= v && v <= 12 && w == v + 40,
            ;
        }
        Hours::Pm(v) => {
            let w = wrap_add_byte(v, 60);
            assert(w == v + 60);
            assert(twelve_hour_mode(bcd_byte(w)) && pm_selected(bcd_byte(w)) && twelve_hour_value(
                bcd_byte(w),
            ) == v) by (bit_vector)
                requires
                    1 <= v && v <= 12 && w == v + 60,
            ;
        }
    }
}

/// Day-of-week round trip: every index 0-6 survives encoding into the
/// chip's 1-based register byte and decoding back; and the boundary raw
/// byte 0, which precedes the 1-based range, decodes to no valid day.
pub proof fn lemma_day_of_week_round_trip(idx: u8)
    requires
        idx <= 6,
    ensures
        day_of_byte(day_byte_of(idx)) matches Some(d) && day_index(d) == idx,
        day_of_byte(0) is None,
{
    assert(day_byte_of(idx) == idx + 1) by (bit_vector)
        requires
            idx <= 6,
    ;
}

/// Year round trip: every year 1900-2099, paired with a month 1-12,
/// survives encoding into the month and year register bytes and decoding
/// back — the century bit carries the 1900s/2000s distinction and leaves
/// the month digits intact.
pub proof fn lemma_year_month_round_trip(year: u16, month: u8)
    requires
        1900 <= year && year <= 2099,
        1 <= month && month <= 12,
    ensures
        year_value(month_byte_of(year, month), year_byte_of(year)) == year,
        month_value(month_byte_of(year, month)) == month,
{
    let mb = month_byte_of(year, month);
    let two = (year % 100) as u8;
    assert(year % 100 <= 99 && (2000 <= year ==> year % 100 + 2000 == year) && (year < 2000
        ==> year % 100 + 1900 == year)) by (bit_vector)
        requires
            1900 <= year && year <= 2099,
    ;
    lemma_bcd_round_trip(two);
    if year >= 2000 {
        assert(century_set(mb) && month_value(mb) == month) by (bit_vector)
            requires
                1 <= month && month <= 12 && mb == bcd_byte(wrap_add_byte(month, 80)),
        ;
    } else {
        assert(!century_set(mb) && month_value(mb) == month) by (bit_vector)
            requires
                1 <= month && month <= 12 && mb == bcd_byte(month),
        ;
    }
}

impl View for DateTime {
    type V = Seq<u8>;

    closed spec fn view(&self) -> Seq<u8> {
        self.data@
    }
}

impl DateTime {
    /// Captures a raw 7-register snapshot.
    pub fn from_raw(data: [u8; 7]) -> (r: Self)
        ensures
            r@ == data@,
    {
        DateTime { data }
    }

    /// The seconds register, BCD-decoded.
    pub fn secs(&self) -> (r: u8)
        ensures
            r == bcd_value(self@[0]),
    {
        decode_bcd(self.data[0])
    }

    /// The minutes register, BCD-decoded.
    pub fn mins(&self) -> (r: u8)
        ensures
            r == bcd_value(self@[1]),
    {
        decode_bcd(self.data[1])
    }

    /// The hours register, resolved into 24-hour or 12-hour AM/PM form
    /// according to the register's mode bit.
    pub fn hours(&self) -> (r: Hours)
        ensures
            r == hours_of_byte(self@[2]),
    {
        let b: u8 = self.data[2];
        proof {
            assert((b & 0xf) <= 15 && ((b & 0x30) >> 4) <= 3) by (bit_vector);
        }
        let mut val: u8 = b & 0xf;
        if (b & 0x40) > 0 {
            if (b & 0x10) > 0 {
                val += 10;
            }
            if (b & 0x20) > 0 {
                return Hours::Pm(val);
            }
            return Hours::Am(val);
        }
        Hours::H24(((b & 0x30) >> 4) * 10 + val)
    }

    /// The day-of-week register, mapped from the chip's 1-based index to
    /// a named day; 0 or an index past 7 gives `None`.
    pub fn day_of_week(&self) -> (r: Option<DayOfWeek>)
        ensures
            r == day_of_byte(self@[3]),
    {
        let b: u8 = self.data[3];
        if b >= 1 {
            DayOfWeek::from_idx(b - 1)
        } else {
            None
        }
    }

    /// The day-of-month register, BCD-decoded.
    pub fn day(&self) -> (r: u8)
        ensures
            r == bcd_value(self@[4]),
    {
        decode_bcd(self.data[4])
    }

    /// The month register, BCD-decoded with the century bit masked out.
    pub fn month(&self) -> (r: u8)
        ensures
            r == month_value(self@[5]),
    {
        decode_bcd(self.data[5] & 0x7f)
    }

    /// The 4-digit year: the year register's two BCD digits plus 2000
    /// when the month register's century bit is set, else plus 1900.
    pub fn year(&self) -> (r: u16)
        ensures
            r == year_value(self@[5], self@[6]),
    {
        let low: u16 = decode_bcd(self.data[6]) as u16;
        if (self.data[5] & 0x80) > 0 {
            low + 2000
        } else {
            low + 1900
        }
    }
}

impl DayOfWeek {
    /// The 0-based index of this day.
    pub fn idx(&self) -> (r: u8)
        ensures
            r == day_index(*self),
    {
        match self {
            DayOfWeek::Mon => 0,
            DayOfWeek::Tue => 1,
            DayOfWeek::Wed => 2,
            DayOfWeek::Thu => 3,
            DayOfWeek::Fri => 4,
            DayOfWeek::Sat => 5,
            DayOfWeek::Sun => 6,
        }
    }

    /// The day with a given 0-based index; `None` past 6.
    pub fn from_idx(idx: u8) -> (r: Option<Self>)
        ensures
            r == day_of_index(idx),
    {
        match idx {
            0 => Some(DayOfWeek::Mon),
            1 => Some(DayOfWeek::Tue),
            2 => Some(DayOfWeek::Wed),
            3 => Some(DayOfWeek::Thu),
            4 => Some(DayOfWeek::Fri),
            5 => Some(DayOfWeek::Sat),
            6 => Some(DayOfWeek::Sun),
            _ => None,
        }
    }
}

} // verus!
