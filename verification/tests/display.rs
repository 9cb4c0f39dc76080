use pomodoro_timer::display::display_minutes;
use pomodoro_timer::display::display_seconds;
use pomodoro_timer::display::format_readout;

#[test]
fn full_work_interval_reads_25_00() {
    assert_eq!(display_minutes(1500), 25);
    assert_eq!(display_seconds(1500), 0);
}

#[test]
fn almost_full_interval_reads_24_59() {
    assert_eq!(display_minutes(1499), 24);
    assert_eq!(display_seconds(1499), 59);
}

#[test]
fn zero_reads_00_00() {
    assert_eq!(display_minutes(0), 0);
    assert_eq!(display_seconds(0), 0);
}

#[test]
fn hours_wrap_out_of_the_minute_field() {
    assert_eq!(display_minutes(3_661), 1);
    assert_eq!(display_seconds(3_661), 1);
}

#[test]
fn fields_fit_two_digits() {
    for s in [59u64, 60, 61, 3_599, 3_600, 86_400, u64::MAX] {
        assert!(display_minutes(s) < 60);
        assert!(display_seconds(s) < 60);
    }
}

#[test]
fn readout_is_zero_padded() {
    assert_eq!(format_readout(65), "01:05");
    assert_eq!(format_readout(0), "00:00");
    assert_eq!(format_readout(9), "00:09");
    assert_eq!(format_readout(600), "10:00");
}

#[test]
fn readout_of_full_presets() {
    assert_eq!(format_readout(1500), "25:00");
    assert_eq!(format_readout(300), "05:00");
    assert_eq!(format_readout(900), "15:00");
}

#[test]
fn readout_agrees_with_the_fields() {
    for secs in [0u64, 1, 59, 60, 61, 1499, 1500, 3599, 3600, 3661] {
        let text = format_readout(secs);
        let expect = format!("{:0>2}:{:0>2}", display_minutes(secs), display_seconds(secs));
        assert_eq!(text, expect);
    }
}
