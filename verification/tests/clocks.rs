use sigue::calendar::{same_day, seconds_until, Instants, Moment, DAY, EARLIEST, LATEST};
use sigue::time::{
    checked_wait_seconds, choose_zone, combine_waits, parse_clock, parse_timezone, read_clock,
    seconds_after_midnight, seconds_of_amount, try_parse_absolute, try_parse_relative,
    wait_until_clock, wait_until_utc, wait_until_zone, TzSpec,
};

fn at(secs: i64) -> Moment {
    Moment { secs, nanos: 0 }
}

fn zone_name(zone: TzSpec) -> String {
    match zone {
        TzSpec::Named(name) => name,
        TzSpec::Utc => "<utc>".to_string(),
        TzSpec::Local => "<local>".to_string(),
    }
}

#[test]
fn zones_are_named_in_many_ways() {
    for (text, name) in [
        ("UTC", "<utc>"),
        ("gmt", "<utc>"),
        ("Z", "<utc>"),
        ("Local", "<local>"),
        ("Europe/Dublin", "Europe/Dublin"),
        ("edt", "US/Eastern"),
        ("cdt", "US/Central"),
        ("mdt", "US/Mountain"),
        ("pst", "US/Pacific"),
        ("PDT", "US/Pacific"),
        ("bst", "Europe/London"),
        ("cest", "Europe/Paris"),
        ("Mars/Olympus", "<local>"),
    ] {
        assert_eq!(zone_name(parse_timezone(text)), name, "{}", text);
    }
    assert_eq!(zone_name(choose_zone("Xyz", "xyz", "XYZ", true)), "Xyz");
    assert_eq!(zone_name(choose_zone("Xyz", "xyz", "XYZ", false)), "<local>");
}

#[test]
fn times_of_day_are_counted_from_midnight() {
    assert_eq!(seconds_after_midnight(3, 0, Some("pm")), Some(54_000));
    assert_eq!(seconds_after_midnight(12, 0, Some("am")), Some(0));
    assert_eq!(seconds_after_midnight(12, 30, Some("pm")), Some(45_000));
    assert_eq!(seconds_after_midnight(23, 59, None), Some(86_340));
    assert_eq!(seconds_after_midnight(24, 0, None), None);
    assert_eq!(seconds_after_midnight(3, 60, None), None);
    assert_eq!(seconds_after_midnight(13, 0, Some("pm")), None);
}

#[test]
fn clocks_are_read_from_the_screen() {
    let (secs, zone) = parse_clock("limit resets at 3:30 PM (Asia/Kolkata)").unwrap();
    assert_eq!((secs, zone_name(zone).as_str()), (55_800, "Asia/Kolkata"));
    let (secs, zone) = parse_clock("resets 15").unwrap();
    assert_eq!((secs, zone_name(zone).as_str()), (54_000, "<local>"));
    assert!(parse_clock("resets 25").is_none());
    assert!(parse_clock("nothing").is_none());
    assert!(read_clock("x", None, None, TzSpec::Utc).is_none());
    assert_eq!(read_clock("7", Some("x"), None, TzSpec::Utc).unwrap().0, 25_200);
}

#[test]
fn utc_waits_reach_the_next_time() {
    // 2026-11-16 12:00:00 UTC.
    let noon = 1_794_830_400;
    assert_eq!(wait_until_utc(54_000, at(noon)), 10_800);
    assert_eq!(wait_until_utc(43_200, at(noon)), 86_400);
    assert_eq!(wait_until_utc(0, at(noon)), 43_200);
    assert_eq!(wait_until_utc(54_000, Moment { secs: noon, nanos: 1 }), 10_799);
}

#[test]
fn zone_waits_follow_the_clock_of_the_zone() {
    // 2026-11-16 12:00:00 UTC is 17:30 in Kolkata and 07:00 in New York.
    let noon = 1_794_830_400;
    assert_eq!(wait_until_zone("Asia/Kolkata", 18 * 3600, at(noon)), Some(1800));
    assert_eq!(wait_until_zone("Asia/Kolkata", 17 * 3600, at(noon)), Some(84_600));
    assert_eq!(wait_until_zone("America/New_York", 15 * 3600, at(noon)), Some(28_800));
    assert_eq!(wait_until_zone("Mars/Olympus", 0, at(noon)), None);
    // 2024-07-15 13:00:00 UTC is 14:00 in Dublin.
    assert_eq!(wait_until_zone("Europe/Dublin", 54_000, at(1_721_048_400)), Some(3_600));
    // 2024-01-15 22:00:00 UTC is 14:00 on the Pacific coast, and 09:00:00 is 14:30 in India.
    assert_eq!(wait_until_zone("US/Pacific", 54_000, at(1_705_356_000)), Some(3_600));
    assert_eq!(wait_until_zone("Asia/Kolkata", 54_000, at(1_705_309_200)), Some(1_800));
}

#[test]
fn ends_of_the_calendar_are_waited_by_utc() {
    for secs in [EARLIEST, EARLIEST + DAY - 1, LATEST - 3 * DAY + 1, LATEST] {
        let utc = wait_until_utc(54_000, at(secs));
        assert_eq!(wait_until_zone("Europe/Dublin", 54_000, at(secs)), Some(utc));
        assert_eq!(wait_until_zone("Mars/Olympus", 54_000, at(secs)), None);
    }
}

#[test]
fn every_abbreviation_gives_a_wait() {
    for zone in ["EST", "cdt", "MST", "PST", "BST", "CEST", "Mars/Olympus", "local", "utc"] {
        let wait = try_parse_absolute(&format!("resets 3pm ({})", zone)).unwrap();
        assert!(wait < 4 * 86_400);
    }
}

#[test]
fn skipped_time_of_a_zone_is_taken_by_the_unturned_clock() {
    // 2024-03-10 05:30:00 UTC is 00:30 in New York, where 02:30 is skipped on that day.
    let before = 1_710_048_600;
    assert_eq!(wait_until_zone("America/New_York", 9_000, at(before)), Some(7_200));
    assert_eq!(wait_until_zone("America/New_York", 3_600, at(before)), Some(1_800));
    // An hour after the clock went forward, 02:30 is next shown on the day after.
    let after = 1_710_057_600;
    assert_eq!(wait_until_zone("America/New_York", 9_000, at(after)), Some(81_000));
    // On the evening before, tomorrow's 02:30 is the skipped one.
    let evening = 1_710_018_000;
    assert_eq!(wait_until_zone("America/New_York", 9_000, at(evening)), Some(37_800));
}

#[test]
fn reset_of_tomorrow_follows_the_clock_over_its_change() {
    // 2024-03-09 21:00:00 UTC is 16:00 in New York, on the day before the clock goes forward.
    assert_eq!(wait_until_zone("America/New_York", 54_000, at(1_710_018_000)), Some(79_200));
    // 2026-10-31 20:00:00 UTC is 16:00 in New York, on the day before the clock goes back.
    assert_eq!(wait_until_zone("America/New_York", 54_000, at(1_793_476_800)), Some(86_400));
}

#[test]
fn turned_back_clock_makes_a_longer_wait() {
    // 2026-11-01 04:30:00 UTC is 00:30 in New York, where the clock is turned back at 02:00.
    let before = 1_793_507_400;
    assert_eq!(wait_until_zone("America/New_York", 3 * 3600, at(before)), Some(12_600));
    // 01:30 is shown twice; the first time counts.
    assert_eq!(wait_until_zone("America/New_York", 5_400, at(before)), Some(3_600));
    // 23:59 is more than a day away from midnight.
    assert_eq!(wait_until_zone("America/New_York", 86_340, at(before - 1_800)), Some(89_940));
}

#[test]
fn waits_for_a_reading_take_the_first_instant() {
    // It is 13:30 in UTC, and the clock is two hours and a half ahead.
    let clock = 11 * 86_400 + 48_600 + 9_000;
    let here = at(11 * 86_400 + 48_600);
    let day = |n: i64| Instants::Unique(here.secs + n);
    let wait =
        |today, tomorrow| wait_until_clock(today, tomorrow, here, clock, 57_600 + 1_000);
    assert_eq!(wait(day(1_000), day(86_000)), 1_000);
    assert_eq!(wait(day(0), day(86_000)), 86_000);
    assert_eq!(wait(day(-50), Instants::Missing), 87_400);
    assert_eq!(wait(Instants::Missing, day(86_000)), 1_000);
    let twice = Instants::Ambiguous(here.secs + 1_000, here.secs + 4_600);
    assert_eq!(wait(twice, day(86_000)), 1_000);
}

#[test]
fn days_begin_at_midnight() {
    assert_eq!(same_day(86_400 * 3 + 17, 5), 86_400 * 3 + 5);
    assert_eq!(same_day(-1, 5), -86_400 + 5);
    assert_eq!(seconds_until(11, at(10)), 1);
    assert_eq!(seconds_until(11, Moment { secs: 10, nanos: 1 }), 0);
    assert_eq!(seconds_until(11, at(20)), 0);
}

#[test]
fn amounts_are_counted_in_seconds() {
    assert_eq!(seconds_of_amount("2", "hours"), Some(7_200));
    assert_eq!(seconds_of_amount("2", "minutes"), Some(120));
    assert_eq!(seconds_of_amount("2", "Hours"), Some(7_200));
    assert_eq!(seconds_of_amount("2", "H"), Some(7_200));
    assert_eq!(seconds_of_amount("2", "M"), Some(120));
    assert_eq!(seconds_of_amount("x", "h"), None);
    assert_eq!(try_parse_relative("try again in 007 m"), Some(420));
    assert_eq!(try_parse_relative("resets at 3pm"), None);
}

#[test]
fn waits_are_combined_with_the_margin() {
    assert_eq!(combine_waits(Some(10), Some(20), 5, 99), 15);
    assert_eq!(combine_waits(None, Some(20), 5, 99), 25);
    assert_eq!(combine_waits(None, None, 5, 99), 99);
}

#[test]
fn waits_beyond_the_type_are_told() {
    assert_eq!(checked_wait_seconds("resets in 1 hour", 60, 300), Some(3_660));
    assert_eq!(checked_wait_seconds("resets in 1 hour", u64::MAX, 300), None);
    assert_eq!(checked_wait_seconds("resets in 1 hour", u64::MAX - 3_600, 300), Some(u64::MAX));
    assert_eq!(checked_wait_seconds("Try again in 2 Hours", 60, 300), Some(7_260));
    let most = u64::MAX - 86_400;
    assert!(checked_wait_seconds("resets 3pm (UTC)", most, 300).unwrap() >= most);
    assert!(checked_wait_seconds("resets 3pm", most - 172_800, 300).is_some());
    assert!(checked_wait_seconds("resets 2:30am", 60, 1).unwrap() >= 60);
    assert_eq!(checked_wait_seconds("soon", u64::MAX, 300), Some(300));
    let day = checked_wait_seconds("resets 3pm (UTC)", 60, 300).unwrap();
    assert!((60..=86_460).contains(&day));
}
