use endzeit::timeparse::parse_time;

#[test]
fn parse_full_time() {
    assert_eq!(parse_time("12:34:56"), Ok((12, 34, 56)));
}

#[test]
fn parse_hours_and_minutes() {
    assert_eq!(parse_time("7:05"), Ok((7, 5, 0)));
}

#[test]
fn parse_hours_only() {
    assert_eq!(parse_time("23"), Ok((23, 0, 0)));
}

#[test]
fn parse_accepts_plus_and_leading_zeros() {
    assert_eq!(parse_time("+08:007"), Ok((8, 7, 0)));
}

#[test]
fn parse_does_not_check_ranges() {
    assert_eq!(parse_time("99:99:99"), Ok((99, 99, 99)));
}

#[test]
fn parse_bad_hour() {
    assert_eq!(parse_time("xx:10"), Err("Invalid hour".to_string()));
    assert_eq!(parse_time(""), Err("Invalid hour".to_string()));
    assert_eq!(parse_time("-1"), Err("Invalid hour".to_string()));
    assert_eq!(parse_time("4294967296"), Err("Invalid hour".to_string()));
}

#[test]
fn parse_bad_minute() {
    assert_eq!(parse_time("10:"), Err("Invalid minute".to_string()));
    assert_eq!(parse_time("10:a:b"), Err("Invalid minute".to_string()));
}

#[test]
fn parse_bad_second() {
    assert_eq!(parse_time("10:20: 3"), Err("Invalid second".to_string()));
}

#[test]
fn parse_too_many_parts() {
    assert_eq!(
        parse_time("1:2:3:4"),
        Err("Invalid time format, use HH[:MM[:SS]]".to_string())
    );
}

#[test]
fn parse_largest_hour() {
    assert_eq!(parse_time("4294967295"), Ok((u32::MAX, 0, 0)));
}
