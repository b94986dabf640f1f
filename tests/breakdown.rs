use endzeit::breakdown::{decompose, TimeRemaining};

fn breakdown(days: u64, hours: u64, minutes: u64, seconds: u64) -> TimeRemaining {
    TimeRemaining { years: 0, months: 0, weeks: 0, days, hours, minutes, seconds }
}

#[test]
fn decompose_one_day_one_hour() {
    let t = decompose(90000);
    assert_eq!(t, breakdown(1, 1, 0, 0));
}

#[test]
fn decompose_zero() {
    assert_eq!(decompose(0), breakdown(0, 0, 0, 0));
}

#[test]
fn decompose_every_unit() {
    // 1 year, 2 months, 3 weeks, 4 days, 5 hours, 6 minutes, 7 seconds
    let r = 31_536_000 + 2 * 2_592_000 + 3 * 604_800 + 4 * 86_400 + 5 * 3_600 + 6 * 60 + 7;
    let t = decompose(r);
    assert_eq!(
        t,
        TimeRemaining { years: 1, months: 2, weeks: 3, days: 4, hours: 5, minutes: 6, seconds: 7 }
    );
}

#[test]
fn decompose_month_can_reach_twelve() {
    // 364 days: twelve 30-day months and four days
    let t = decompose(364 * 86_400);
    assert_eq!(t.years, 0);
    assert_eq!(t.months, 12);
    assert_eq!(t.weeks, 0);
    assert_eq!(t.days, 4);
}

#[test]
fn decompose_largest_input() {
    let t = decompose(u64::MAX);
    let total = t.years as u128 * 31_536_000
        + t.months as u128 * 2_592_000
        + t.weeks as u128 * 604_800
        + t.days as u128 * 86_400
        + t.hours as u128 * 3_600
        + t.minutes as u128 * 60
        + t.seconds as u128;
    assert_eq!(total, u64::MAX as u128);
    assert!(t.seconds < 60 && t.minutes < 60 && t.hours < 24 && t.days < 7);
    assert!(t.weeks <= 4 && t.months <= 12);
}

#[test]
fn decompose_is_repeatable() {
    for r in [0u64, 59, 60, 3_599, 90_000, 31_536_001] {
        assert_eq!(decompose(r), decompose(r));
    }
}

#[test]
fn format_keeps_smaller_zero_units() {
    assert_eq!(breakdown(2, 0, 5, 3).format(), "2d 0h 5m 3s");
}

#[test]
fn format_seconds_only() {
    assert_eq!(breakdown(0, 0, 0, 7).format(), "7s");
}

#[test]
fn format_all_zero() {
    assert_eq!(breakdown(0, 0, 0, 0).format(), "0s");
}

#[test]
fn format_minutes_and_zero_seconds() {
    assert_eq!(breakdown(0, 0, 10, 0).format(), "10m 0s");
}

#[test]
fn format_years_show_every_unit() {
    let t = TimeRemaining { years: 3, months: 0, weeks: 0, days: 0, hours: 0, minutes: 0, seconds: 0 };
    assert_eq!(t.format(), "3y 0m 0w 0d 0h 0m 0s");
}

#[test]
fn format_of_decomposed_value() {
    assert_eq!(decompose(90_061).format(), "1d 1h 1m 1s");
    assert_eq!(decompose(1_209_600).format(), "2w 0d 0h 0m 0s");
}
