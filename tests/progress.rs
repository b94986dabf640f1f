use endzeit::progress::percentage;

#[test]
fn percentage_start() {
    assert_eq!(percentage(0, 100), 0);
}

#[test]
fn percentage_end() {
    assert_eq!(percentage(100, 100), 100);
}

#[test]
fn percentage_zero_total() {
    assert_eq!(percentage(50, 0), 100);
    assert_eq!(percentage(0, 0), 100);
}

#[test]
fn percentage_clamped() {
    assert_eq!(percentage(150, 100), 100);
}

#[test]
fn percentage_rounds_down() {
    assert_eq!(percentage(1, 3), 33);
    assert_eq!(percentage(2, 3), 66);
    assert_eq!(percentage(999, 1000), 99);
}

#[test]
fn percentage_large_values() {
    assert_eq!(percentage(u64::MAX / 2, u64::MAX), 49);
    assert_eq!(percentage(u64::MAX - 1, u64::MAX), 99);
}

#[test]
fn percentage_never_falls() {
    let mut last = 0;
    for e in 0..=120u64 {
        let p = percentage(e, 100);
        assert!(p >= last);
        assert!(p <= 100);
        last = p;
    }
}

#[test]
fn percentage_is_repeatable() {
    for (e, t) in [(0u64, 100u64), (50, 0), (7, 9), (150, 100)] {
        assert_eq!(percentage(e, t), percentage(e, t));
    }
}
