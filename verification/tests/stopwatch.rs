use type_trainer::timer::Timer;

#[test]
fn fresh_timer_reads_zero() {
    let t = Timer::new(None);
    assert_eq!(t.get_time_at(12345), 0);
    assert!(!t.timer_expired_at(12345));
}

#[test]
fn one_interval_accumulates() {
    let mut t = Timer::new(None);
    t.start_at(100);
    assert_eq!(t.get_time_at(600), 500);
    t.stop_at(600);
    assert_eq!(t.get_time_at(9999), 500);
}

#[test]
fn pause_and_resume_accumulates_both_intervals() {
    let mut t = Timer::new(None);
    t.start_at(0);
    t.stop_at(300);
    t.start_at(1000);
    t.stop_at(1200);
    assert_eq!(t.get_time_at(5000), 500);
}

#[test]
fn stop_twice_keeps_elapsed() {
    let mut t = Timer::new(None);
    t.start_at(0);
    t.stop_at(500);
    let once = t.get_time_at(800);
    t.stop_at(800);
    assert_eq!(t.get_time_at(800), once);
    assert_eq!(once, 500);
}

#[test]
fn start_twice_does_not_double_count() {
    let mut t = Timer::new(None);
    t.start_at(0);
    t.start_at(300);
    t.stop_at(500);
    assert_eq!(t.get_time_at(500), 500);
}

#[test]
fn reset_returns_to_zero() {
    let mut t = Timer::new(Some(60_000));
    t.start_at(0);
    t.stop_at(700);
    t.reset();
    assert_eq!(t.get_time_at(99_999), 0);
    let mut r = Timer::new(None);
    r.start_at(0);
    r.reset();
    assert_eq!(r.get_time_at(99_999), 0);
}

#[test]
fn limit_expires_only_when_reached() {
    let mut t = Timer::new(Some(1000));
    t.start_at(0);
    assert!(!t.timer_expired_at(999));
    assert!(t.timer_expired_at(1000));
    assert!(t.timer_expired_at(1100));
}

#[test]
fn no_limit_never_expires() {
    let mut t = Timer::new(None);
    t.start_at(0);
    assert!(!t.timer_expired_at(u64::MAX));
}

#[test]
fn clock_label_pads_minutes_and_seconds() {
    let t = Timer::new(None);
    assert_eq!(t.get_time_label_at(0), "00:00");
    let mut t = Timer::new(None);
    t.start_at(0);
    t.stop_at(65_000);
    assert_eq!(t.get_time_label_at(65_000), "01:05");
    let mut t = Timer::new(None);
    t.start_at(0);
    t.stop_at(3_700_000);
    assert_eq!(t.get_time_label_at(0), "61:40");
}

#[test]
fn backwards_clock_reading_counts_as_zero() {
    let mut t = Timer::new(None);
    t.start_at(1000);
    assert_eq!(t.get_time_at(400), 0);
}
