use endzeit::deadline::{compute_total_seconds, validate_datetime, DeadlineError, LocalDateTime};

fn at(days: i32, seconds: u32, nanos: u32) -> LocalDateTime {
    LocalDateTime { days, seconds, nanos }
}

#[test]
fn deadline_equal_to_now_is_rejected() {
    let now = at(739_000, 3_600, 0);
    assert_eq!(compute_total_seconds(now, now), Err(DeadlineError::NotInFuture));
}

#[test]
fn deadline_one_second_ahead_is_accepted() {
    let now = at(739_000, 3_600, 0);
    assert_eq!(compute_total_seconds(at(739_000, 3_601, 0), now), Ok(1));
}

#[test]
fn deadline_in_the_past_is_rejected() {
    let now = at(739_000, 3_600, 0);
    assert_eq!(compute_total_seconds(at(738_999, 86_399, 0), now), Err(DeadlineError::NotInFuture));
}

#[test]
fn deadline_across_days() {
    let now = at(739_000, 86_000, 0);
    assert_eq!(compute_total_seconds(at(739_002, 400, 0), now), Ok(2 * 86_400 + 400 - 86_000));
}

#[test]
fn deadline_rounds_partial_seconds_down() {
    let now = at(739_000, 100, 500_000_000);
    assert_eq!(compute_total_seconds(at(739_000, 101, 0), now), Ok(0));
    assert_eq!(compute_total_seconds(at(739_000, 102, 0), now), Ok(1));
}

#[test]
fn deadline_extreme_days() {
    let r = compute_total_seconds(at(i32::MAX, 86_399, 999_999_999), at(i32::MIN, 0, 0));
    let expected = ((i32::MAX as i128 - i32::MIN as i128) * 86_400 + 86_399) as u64;
    assert_eq!(r, Ok(expected));
}

#[test]
fn validate_without_time_is_now() {
    let now = at(739_000, 1_234, 56);
    assert_eq!(validate_datetime(5, None, now), Ok(now));
}

#[test]
fn validate_with_time() {
    let now = at(739_000, 1_234, 56);
    assert_eq!(validate_datetime(739_001, Some("10:30"), now), Ok(at(739_001, 37_800, 0)));
}

#[test]
fn validate_rejects_out_of_range_time() {
    let now = at(739_000, 0, 0);
    assert_eq!(validate_datetime(739_001, Some("24:00"), now), Err("Invalid time".to_string()));
    assert_eq!(validate_datetime(739_001, Some("10:60"), now), Err("Invalid time".to_string()));
    assert_eq!(validate_datetime(739_001, Some("10:00:60"), now), Err("Invalid time".to_string()));
}

#[test]
fn validate_passes_parse_errors_on() {
    let now = at(739_000, 0, 0);
    assert_eq!(validate_datetime(739_001, Some("1:x"), now), Err("Invalid minute".to_string()));
}

#[test]
fn validate_last_second_of_day() {
    let now = at(739_000, 0, 0);
    assert_eq!(validate_datetime(739_000, Some("23:59:59"), now), Ok(at(739_000, 86_399, 0)));
}
