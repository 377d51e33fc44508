use frame_loop::clock::{TimeOfDay, NANOS_BOUND, SECONDS_PER_DAY};

#[test]
fn new_accepts_fields_in_range() {
    let t = TimeOfDay::new(3_723, 500).unwrap();
    assert_eq!(t.secs, 3_723);
    assert_eq!(t.nanos, 500);
}

#[test]
fn new_accepts_leap_second() {
    let t = TimeOfDay::new(86_399, 1_999_999_999).unwrap();
    assert_eq!(t.nanos_since_midnight(), 86_400_999_999_999);
}

#[test]
fn new_rejects_out_of_range() {
    assert_eq!(TimeOfDay::new(SECONDS_PER_DAY, 0), None);
    assert_eq!(TimeOfDay::new(0, NANOS_BOUND), None);
    assert_eq!(TimeOfDay::new(u32::MAX, u32::MAX), None);
}

#[test]
fn midnight_is_zero() {
    assert_eq!(TimeOfDay::new(0, 0).unwrap().nanos_since_midnight(), 0);
}

#[test]
fn nanos_since_midnight_exact() {
    let t = TimeOfDay::new(45_296, 123_456_789).unwrap();
    assert_eq!(t.nanos_since_midnight(), 45_296_123_456_789);
}

#[test]
fn local_clock_reading_is_in_range() {
    let t = TimeOfDay::now_local();
    assert!(t.secs < SECONDS_PER_DAY);
    assert!(t.nanos < NANOS_BOUND);
    assert_eq!(TimeOfDay::new(t.secs, t.nanos), Some(t));
}
