use sigue::countdown::{countdown_tick, format_duration, Tick};

#[test]
fn durations_are_shown_by_size() {
    assert_eq!(format_duration(0), "0s");
    assert_eq!(format_duration(59), "59s");
    assert_eq!(format_duration(60), "1m00s");
    assert_eq!(format_duration(605), "10m05s");
    assert_eq!(format_duration(3599), "59m59s");
    assert_eq!(format_duration(3600), "1h0m");
    assert_eq!(format_duration(7384), "2h3m");
    assert_eq!(format_duration(360_000), "100h0m");
}

#[test]
fn countdown_shows_the_time_left() {
    match countdown_tick(90, 25, "retry in") {
        Tick::Sleep { status, secs } => {
            assert_eq!(status, "retry in 1m05s");
            assert_eq!(secs, 1);
        }
        Tick::Over => panic!("over too soon"),
    }
}

#[test]
fn long_countdown_ticks_every_ten_seconds() {
    assert!(matches!(countdown_tick(121, 0, ""), Tick::Sleep { secs: 10, .. }));
    assert!(matches!(countdown_tick(120, 0, ""), Tick::Sleep { secs: 1, .. }));
}

#[test]
fn countdown_over_is_over() {
    assert!(matches!(countdown_tick(0, 0, "x"), Tick::Over));
    assert!(matches!(countdown_tick(10, 10, "x"), Tick::Over));
    assert!(matches!(countdown_tick(10, 11, "x"), Tick::Over));
}

#[test]
fn countdown_sleeps_for_its_time() {
    for total in [1u64, 119, 120, 121, 129, 130, 3601] {
        let mut elapsed = 0;
        while let Tick::Sleep { secs, .. } = countdown_tick(total, elapsed, "") {
            elapsed += secs;
        }
        assert_eq!(elapsed, total);
    }
}
