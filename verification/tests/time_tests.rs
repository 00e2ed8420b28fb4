use kolibri_pal::api::{bcd2dec, decode_date, decode_time, sleep_ticks};
use kolibri_pal::datetime::{Date, DateTime, Time};
use kolibri_pal::duration::Duration;
use kolibri_pal::time::{Instant, SystemTime, unix_epoch};

fn date(day: u8, month: u8, year: u16) -> Date {
    Date { day, month, year }
}

fn midnight() -> Time {
    Time { second: 0, minute: 0, hour: 0 }
}

#[test]
fn total_days_of_unix_epoch() {
    assert_eq!(date(1, 1, 1970).total_days(), 719561);
}

#[test]
fn total_days_of_first_march_year_zero() {
    assert_eq!(date(1, 3, 0).total_days(), 93);
}

#[test]
fn total_seconds_counts_hours_minutes_seconds() {
    let t = Time { second: 56, minute: 34, hour: 12 };
    assert_eq!(t.total_seconds(), 45296);
}

#[test]
fn unix_epoch_is_second_zero() {
    let dt = DateTime { date: date(1, 1, 1970), time: midnight() };
    assert_eq!(dt.to_unix(), 0);
}

#[test]
fn to_unix_of_year_2000() {
    let dt = DateTime { date: date(1, 1, 2000), time: midnight() };
    assert_eq!(dt.to_unix(), 946684800);
}

#[test]
fn to_unix_of_a_summer_afternoon() {
    let dt = DateTime { date: date(15, 8, 2024), time: Time { second: 56, minute: 34, hour: 12 } };
    assert_eq!(dt.to_unix(), 1723725296);
}

#[test]
fn to_unix_counts_january_as_thirty_days() {
    let dt = DateTime { date: date(1, 2, 1970), time: midnight() };
    assert_eq!(dt.to_unix(), 2592000);
}

#[test]
fn to_unix_gives_end_of_march_and_start_of_april_the_same_second() {
    let a = DateTime { date: date(31, 3, 1970), time: midnight() };
    let b = DateTime { date: date(1, 4, 1970), time: midnight() };
    assert_eq!(a.to_unix(), 7689600);
    assert_eq!(a.to_unix(), b.to_unix());
}

#[test]
fn next_day_is_86400_seconds_later() {
    let a = DateTime { date: date(10, 6, 1999), time: Time { second: 1, minute: 2, hour: 3 } };
    let b = DateTime { date: date(11, 6, 1999), time: Time { second: 1, minute: 2, hour: 3 } };
    assert_eq!(b.to_unix() - a.to_unix(), 86400);
}

#[test]
fn bcd_bytes_decode_to_decimal() {
    assert_eq!(bcd2dec(0x59), 59);
    assert_eq!(bcd2dec(0x00), 0);
    assert_eq!(bcd2dec(0x10), 10);
    assert_eq!(bcd2dec(0x99), 99);
}

#[test]
fn bcd_round_trip_below_one_hundred() {
    for n in 0u8..100 {
        assert_eq!(bcd2dec((n / 10) * 16 + n % 10), n);
    }
}

#[test]
fn clock_register_decodes_to_time() {
    let t = decode_time(0x0056_3412);
    assert_eq!((t.hour, t.minute, t.second), (12, 34, 56));
}

#[test]
fn clock_register_ignores_the_high_byte() {
    let t = decode_time(0x7f05_0423);
    assert_eq!((t.hour, t.minute, t.second), (23, 4, 5));
}

#[test]
fn date_register_decodes_to_date() {
    let d = decode_date(0x0015_0824);
    assert_eq!((d.year, d.month, d.day), (2024, 8, 15));
}

#[test]
fn sleep_ticks_are_hundredths_of_a_second() {
    assert_eq!(sleep_ticks(25_000_000), 2);
    assert_eq!(sleep_ticks(9_999_999), 0);
    assert_eq!(sleep_ticks(1_000_000_000), 100);
}

#[test]
fn duration_from_millis_splits_seconds() {
    let d = Duration::from_millis(2_500);
    assert_eq!(d.as_secs(), 2);
    assert_eq!(d.subsec_nanos(), 500_000_000);
    assert_eq!(d.as_millis(), 2_500);
    assert_eq!(d.as_nanos(), 2_500_000_000);
}

#[test]
fn duration_checked_add_carries_nanoseconds() {
    let a = Duration::new(1, 700_000_000);
    let b = Duration::new(2, 600_000_000);
    let s = a.checked_add(b).unwrap();
    assert_eq!(s.as_secs(), 4);
    assert_eq!(s.subsec_nanos(), 300_000_000);
}

#[test]
fn duration_checked_add_overflows_past_the_largest_span() {
    let a = Duration::max_value();
    assert!(a.checked_add(Duration::new(0, 1)).is_none());
    assert!(Duration::new(u64::MAX, 500_000_000).checked_add(Duration::new(0, 500_000_000)).is_none());
}

#[test]
fn duration_checked_sub_borrows_a_second() {
    let a = Duration::new(3, 100_000_000);
    let b = Duration::new(1, 200_000_000);
    let d = a.checked_sub(b).unwrap();
    assert_eq!(d.as_secs(), 1);
    assert_eq!(d.subsec_nanos(), 900_000_000);
    assert!(b.checked_sub(a).is_none());
}

#[test]
fn duration_add_then_sub_gives_it_back() {
    let a = Duration::new(7, 123);
    let b = Duration::new(5, 999_999_999);
    assert_eq!(a.checked_add(b).unwrap().checked_sub(b).unwrap(), a);
}

#[test]
fn duration_sum_does_not_depend_on_order() {
    let a = Duration::new(7, 900_000_000);
    let b = Duration::new(5, 200_000_000);
    assert_eq!(a.checked_add(b), b.checked_add(a));
}

#[test]
fn instant_now_reads_the_clock() {
    let i = Instant::now(date(1, 1, 2000), midnight());
    assert_eq!(i.0, Duration::from_secs(946684800));
}

#[test]
fn instant_difference() {
    let a = Instant(Duration::from_secs(10));
    let b = Instant(Duration::from_secs(4));
    assert_eq!(a.checked_sub_instant(&b), Some(Duration::from_secs(6)));
    assert_eq!(b.checked_sub_instant(&a), None);
}

#[test]
fn instant_add_and_sub_duration() {
    let a = Instant(Duration::from_secs(10));
    let d = Duration::from_millis(1500);
    let later = a.checked_add_duration(&d).unwrap();
    assert_eq!(later.0, Duration::new(11, 500_000_000));
    assert_eq!(later.checked_sub_duration(&d), Some(a));
    assert_eq!(a.checked_sub_duration(&Duration::from_secs(11)), None);
    assert_eq!(Instant(Duration::max_value()).checked_add_duration(&Duration::new(0, 1)), None);
}

#[test]
fn system_time_now_and_epoch() {
    let t = SystemTime::now(date(1, 1, 1970), midnight());
    assert_eq!(t, unix_epoch());
    assert_eq!(SystemTime::min_value(), unix_epoch());
    assert_eq!(SystemTime::max_value().0, Duration::max_value());
}

#[test]
fn system_time_sub_time_orders() {
    let a = SystemTime(Duration::from_secs(100));
    let b = SystemTime(Duration::new(40, 500_000_000));
    assert_eq!(a.sub_time(&b), Ok(Duration::new(59, 500_000_000)));
    assert_eq!(b.sub_time(&a), Err(Duration::new(59, 500_000_000)));
    assert_eq!(a.sub_time(&a), Ok(Duration::zero()));
}

#[test]
fn system_time_sub_time_after_add_gives_the_span() {
    let t = SystemTime(Duration::new(12, 345));
    let d = Duration::new(3, 999_999_999);
    let later = t.checked_add_duration(&d).unwrap();
    assert_eq!(later.sub_time(&t), Ok(d));
    assert_eq!(later.checked_sub_duration(&d), Some(t));
    assert_eq!(t.checked_sub_duration(&Duration::from_secs(13)), None);
    assert_eq!(SystemTime::max_value().checked_add_duration(&Duration::new(0, 1)), None);
}

#[test]
fn counts_from_unix_epoch_only_from_1970() {
    let epoch = DateTime { date: date(1, 1, 1970), time: midnight() };
    assert!(epoch.counts_from_unix_epoch());
    let later = DateTime { date: date(15, 8, 2024), time: midnight() };
    assert!(later.counts_from_unix_epoch());
    let before = DateTime { date: date(31, 12, 1969), time: Time { second: 59, minute: 59, hour: 23 } };
    assert!(!before.counts_from_unix_epoch());
    let early = DateTime { date: date(1, 2, 0), time: midnight() };
    assert!(!early.counts_from_unix_epoch());
}
