use ds3231_clock::codec::{
    decode_bcd, encode_bcd, encode_day_of_week, encode_hours, encode_year_and_month, DateTime,
    DayOfWeek, Hours,
};

fn snapshot_with(idx: usize, b: u8) -> DateTime {
    let mut raw = [0u8; 7];
    raw[idx] = b;
    DateTime::from_raw(raw)
}

#[test]
fn bcd_decode_valid_nibbles() {
    assert_eq!(decode_bcd(0x00), 0);
    assert_eq!(decode_bcd(0x45), 45);
    assert_eq!(decode_bcd(0x99), 99);
    assert_eq!(decode_bcd(0x30), 30);
}

#[test]
fn bcd_decode_never_fails_on_bad_nibbles() {
    // high nibble 10: value 10 * 10 + 2, no validation
    assert_eq!(decode_bcd(0xA2), 102);
    assert_eq!(decode_bcd(0xFF), 165);
    assert_eq!(decode_bcd(0x0F), 15);
}

#[test]
fn bcd_encode_values() {
    assert_eq!(encode_bcd(0), 0x00);
    assert_eq!(encode_bcd(45), 0x45);
    assert_eq!(encode_bcd(99), 0x99);
}

#[test]
fn bcd_round_trip_0_to_99() {
    for v in 0..=99u8 {
        assert_eq!(decode_bcd(encode_bcd(v)), v);
    }
}

#[test]
fn hours_round_trip_24h() {
    for v in 0..=23u8 {
        let dt = snapshot_with(2, encode_hours(Hours::H24(v)));
        assert_eq!(dt.hours(), Hours::H24(v));
    }
}

#[test]
fn hours_round_trip_am_pm() {
    for v in 1..=12u8 {
        let am = snapshot_with(2, encode_hours(Hours::Am(v)));
        assert_eq!(am.hours(), Hours::Am(v));
        let pm = snapshot_with(2, encode_hours(Hours::Pm(v)));
        assert_eq!(pm.hours(), Hours::Pm(v));
    }
}

#[test]
fn hours_encode_sets_mode_bits() {
    // AM rides +40, PM +60: mode bit 0x40, PM bit 0x20, ten-hour bit 0x10
    assert_eq!(encode_hours(Hours::H24(23)), 0x23);
    assert_eq!(encode_hours(Hours::Am(2)), 0x42);
    assert_eq!(encode_hours(Hours::Pm(2)), 0x62);
    assert_eq!(encode_hours(Hours::Am(12)), 0x52);
    assert_eq!(encode_hours(Hours::Pm(12)), 0x72);
}

#[test]
fn day_of_week_index_round_trip() {
    for idx in 0..=6u8 {
        let day = DayOfWeek::from_idx(idx).unwrap();
        assert_eq!(day.idx(), idx);
    }
    assert_eq!(DayOfWeek::from_idx(7), None);
}

#[test]
fn day_of_week_register_round_trip() {
    for idx in 0..=6u8 {
        let dt = snapshot_with(3, encode_day_of_week(idx));
        assert_eq!(dt.day_of_week().unwrap().idx(), idx);
    }
}

#[test]
fn day_of_week_raw_zero_is_unknown() {
    assert_eq!(snapshot_with(3, 0).day_of_week(), None);
    assert_eq!(snapshot_with(3, 8).day_of_week(), None);
    assert_eq!(snapshot_with(3, 1).day_of_week(), Some(DayOfWeek::Mon));
    assert_eq!(snapshot_with(3, 7).day_of_week(), Some(DayOfWeek::Sun));
}

#[test]
fn year_round_trip_both_centuries() {
    for year in 1900..=2099u16 {
        let (month_byte, year_byte) = encode_year_and_month(year, 7);
        let mut raw = [0u8; 7];
        raw[5] = month_byte;
        raw[6] = year_byte;
        let dt = DateTime::from_raw(raw);
        assert_eq!(dt.year(), year);
        assert_eq!(dt.month(), 7);
    }
}

#[test]
fn month_round_trip_all_months() {
    for month in 1..=12u8 {
        let (mb_1999, _) = encode_year_and_month(1999, month);
        assert_eq!(snapshot_with(5, mb_1999).month(), month);
        let (mb_2001, _) = encode_year_and_month(2001, month);
        assert_eq!(snapshot_with(5, mb_2001).month(), month);
    }
}

#[test]
fn century_bit_rides_the_month_byte() {
    let (mb, yb) = encode_year_and_month(2023, 9);
    assert_eq!(mb, 0x89);
    assert_eq!(yb, 0x23);
    let (mb, yb) = encode_year_and_month(1923, 9);
    assert_eq!(mb, 0x09);
    assert_eq!(yb, 0x23);
}

#[test]
fn end_to_end_snapshot_decodes() {
    // seconds 30, minutes 45, hours 0x62 = 12-hour mode + PM + value 2,
    // weekday 3 = Wed, day 15, month 9 with the century bit set, year 23
    let dt = DateTime::from_raw([0x30, 0x45, 0x62, 0x03, 0x15, 0x89, 0x23]);
    assert_eq!(dt.secs(), 30);
    assert_eq!(dt.mins(), 45);
    assert_eq!(dt.hours(), Hours::Pm(2));
    assert_eq!(dt.day_of_week(), Some(DayOfWeek::Wed));
    assert_eq!(dt.day(), 15);
    assert_eq!(dt.month(), 9);
    assert_eq!(dt.year(), 2023);
}

#[test]
fn end_to_end_snapshot_mode_and_century_clear() {
    // hours 0xA2 has the 12-hour mode bit (0x40) clear, so it reads as a
    // 24-hour value with ten-hour bits 0x20: 22; the month byte with the
    // century bit clear puts the year in the 1900s
    let dt = DateTime::from_raw([0x30, 0x45, 0xA2, 0x03, 0x15, 0x09, 0x23]);
    assert_eq!(dt.hours(), Hours::H24(22));
    assert_eq!(dt.month(), 9);
    assert_eq!(dt.year(), 1923);
}

#[test]
fn decode_does_not_mutate_snapshot() {
    let dt = DateTime::from_raw([0x30, 0x45, 0xA2, 0x03, 0x15, 0x89, 0x23]);
    let first = (dt.secs(), dt.mins(), dt.hours(), dt.day(), dt.month(), dt.year());
    let again = (dt.secs(), dt.mins(), dt.hours(), dt.day(), dt.month(), dt.year());
    assert_eq!(first, again);
}
