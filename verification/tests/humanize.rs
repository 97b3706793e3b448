use qbtui::humanize::humanize_eta;

#[test]
fn eta_of_zero_seconds() {
    assert_eq!(humanize_eta(0), "0s");
}

#[test]
fn eta_below_a_minute() {
    assert_eq!(humanize_eta(1), "< 1m");
    assert_eq!(humanize_eta(59), "< 1m");
}

#[test]
fn eta_in_minutes() {
    assert_eq!(humanize_eta(60), "1m");
    assert_eq!(humanize_eta(3599), "59m");
}

#[test]
fn eta_in_hours_and_minutes() {
    assert_eq!(humanize_eta(3600), "1h 0m");
    assert_eq!(humanize_eta(86399), "23h 59m");
}

#[test]
fn eta_in_days_and_hours() {
    assert_eq!(humanize_eta(86400), "1d 0h");
    assert_eq!(humanize_eta(90061), "1d 1h");
    assert_eq!(humanize_eta(8639999), "99d 23h");
}

#[test]
fn eta_without_end() {
    assert_eq!(humanize_eta(-1), "\u{e2}\u{2c6}\u{17e}");
    assert_eq!(humanize_eta(8640000), "\u{e2}\u{2c6}\u{17e}");
    assert_eq!(humanize_eta(i64::MAX), "\u{e2}\u{2c6}\u{17e}");
    assert_eq!(humanize_eta(i64::MIN), "\u{e2}\u{2c6}\u{17e}");
}
