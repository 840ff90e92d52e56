use spotter::text::{debug_string, format_int, spotify_uri};
use spotter::time::{in_dhaka, month_start_in_dhaka, now_dhaka, start_of_month_dhaka, utc_now, Timestamp};
use spotter::time::clock_instant;

#[test]
fn format_int_renders_decimal() {
    assert_eq!(format_int(0), "0");
    assert_eq!(format_int(7), "7");
    assert_eq!(format_int(2019), "2019");
    assert_eq!(format_int(-45), "-45");
    assert_eq!(format_int(1234567890123), "1234567890123");
    assert_eq!(format_int(i128::MIN), i128::MIN.to_string());
    assert_eq!(format_int(i128::MAX), i128::MAX.to_string());
}

#[test]
fn spotify_uri_has_type_and_id() {
    assert_eq!(spotify_uri("track", "4y4VO05kYgUTo2bzbox1an"), "spotify:track:4y4VO05kYgUTo2bzbox1an");
    assert_eq!(spotify_uri("album", "6IcGNaXFRf5Y1jc7QsE9O2"), "spotify:album:6IcGNaXFRf5Y1jc7QsE9O2");
}

#[test]
fn debug_string_quotes_plain_text() {
    assert_eq!(debug_string("album"), "\"album\"");
    assert_eq!(debug_string("appears_on"), "\"appears_on\"");
    assert_eq!(debug_string("say \"hi\""), "\"say \\\"hi\\\"\"");
}

#[test]
fn dhaka_is_six_hours_east() {
    let t = Timestamp { secs: 1735689600, nanos: 5 };
    let d = in_dhaka(&t).unwrap();
    assert_eq!(d.secs, 1735689600);
    assert_eq!(d.nanos, 5);
    assert_eq!(d.offset_secs, 6 * 3600);
}

#[test]
fn dhaka_kept_summer_time_in_2009() {
    // 2009-08-01T00:00Z falls in Dhaka's 2009 daylight-saving time.
    assert_eq!(in_dhaka(&Timestamp { secs: 1249084800, nanos: 0 }).unwrap().offset_secs, 25200);
    // 2009-12-31T17:00Z is the instant it ended.
    assert_eq!(in_dhaka(&Timestamp { secs: 1262278799, nanos: 0 }).unwrap().offset_secs, 25200);
    assert_eq!(in_dhaka(&Timestamp { secs: 1262278800, nanos: 0 }).unwrap().offset_secs, 21600);
    assert_eq!(in_dhaka(&Timestamp { secs: 0, nanos: 0 }).unwrap().offset_secs, 21600);
    // The month of September 2009 started at midnight UTC+7.
    let m = month_start_in_dhaka(&Timestamp { secs: 1252800000, nanos: 0 }).unwrap();
    assert_eq!((m.secs, m.offset_secs), (1251738000, 25200));
    // January 2010 started at midnight UTC+6, right after the change.
    let m = month_start_in_dhaka(&Timestamp { secs: 1263000000, nanos: 0 }).unwrap();
    assert_eq!((m.secs, m.offset_secs), (1262282400, 21600));
}

#[test]
fn month_start_in_dhaka_is_local_midnight_on_the_first() {
    // 2025-03-15T00:00Z lies in March in Dhaka: the month started 2025-02-28T18:00Z.
    let m = month_start_in_dhaka(&Timestamp { secs: 1741996800, nanos: 0 }).unwrap();
    assert_eq!((m.secs, m.nanos, m.offset_secs), (1740765600, 0, 21600));
    // 2025-01-31T19:00Z is already February 1st, 01:00 in Dhaka.
    let m = month_start_in_dhaka(&Timestamp { secs: 1738350000, nanos: 0 }).unwrap();
    assert_eq!(m.secs, 1738346400);
    // 2025-01-31T17:59Z is still January in Dhaka.
    let m = month_start_in_dhaka(&Timestamp { secs: 1738346340, nanos: 0 }).unwrap();
    assert_eq!(m.secs, 1735668000);
}

#[test]
fn current_dhaka_times_are_consistent() {
    let now = now_dhaka().unwrap();
    assert_eq!(now.offset_secs, 21600);
    let start = start_of_month_dhaka().unwrap();
    assert_eq!(start.nanos, 0);
    assert_eq!(start.offset_secs, 21600);
    assert!(start.secs <= now.secs);
    assert!((start.secs + 21600) % 86400 == 0);
}

#[test]
fn clock_reads_after_1970() {
    let t = utc_now().unwrap();
    assert!(t.secs > 1_700_000_000);
    assert!(t.nanos < 1_000_000_000);
}

#[test]
fn month_start_is_local_midnight_before_the_instant() {
    for secs in [0i64, 86399, 951782400, 1245452399, 1262278800, 1741996800, 4102444799] {
        let t = Timestamp { secs, nanos: 0 };
        let m = month_start_in_dhaka(&t).unwrap();
        let local_start = m.secs + m.offset_secs as i64;
        let local_now = secs + in_dhaka(&t).unwrap().offset_secs as i64;
        assert_eq!(local_start % 86400, 0);
        assert!(local_start <= local_now && local_now < local_start + 31 * 86400);
    }
}

#[test]
fn clock_instant_keeps_readings_chrono_can_show() {
    assert_eq!(clock_instant(Some((1741996800, 42))), Some(Timestamp { secs: 1741996800, nanos: 42 }));
    assert_eq!(clock_instant(Some((0, 0))), Some(Timestamp { secs: 0, nanos: 0 }));
    assert_eq!(clock_instant(Some((8210266876799, 1))), Some(Timestamp { secs: 8210266876799, nanos: 1 }));
    assert_eq!(clock_instant(Some((8210266876800, 0))), None);
    assert_eq!(clock_instant(Some((u64::MAX, 0))), None);
    assert_eq!(clock_instant(None), None);
}
