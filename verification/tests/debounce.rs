use cloud_edit::debounce::Debouncer;
use cloud_edit::debounce::TimerVerdict;

#[test]
fn burst_yields_one_flush() {
    // Three saves in quick succession, then quiet: exactly one flush,
    // no earlier than 500 after the last event.
    let mut d = Debouncer::new(500);
    let arm = d.on_event(0);
    assert_eq!(arm, Some(500));
    assert_eq!(d.on_event(100), None);
    assert_eq!(d.on_event(200), None);
    // The timer armed at event 0 fires; a newer event arrived meanwhile.
    let v = d.on_timer_fire(500);
    assert_eq!(v, TimerVerdict::Rearm { deadline: 700 });
    // The re-armed timer fires after the window settled.
    let v = d.on_timer_fire(700);
    assert_eq!(v, TimerVerdict::Flush);
    assert!(!d.pending);
}

#[test]
fn flush_no_earlier_than_duration_after_last_event() {
    let mut d = Debouncer::new(500);
    d.on_event(0);
    // Fires exactly at the original deadline while a newer event from 400
    // is pending: not yet.
    d.on_event(400);
    let v = d.on_timer_fire(500);
    assert_eq!(v, TimerVerdict::Rearm { deadline: 900 });
    // Within 500 of the stream ending (last event 400), the flush comes.
    assert_eq!(d.on_timer_fire(900), TimerVerdict::Flush);
}

#[test]
fn zero_duration_flushes_every_event() {
    let mut d = Debouncer::new(0);
    assert_eq!(d.on_event(5), Some(5));
    assert_eq!(d.on_timer_fire(5), TimerVerdict::Flush);
    assert_eq!(d.on_event(6), Some(6));
    assert_eq!(d.on_timer_fire(6), TimerVerdict::Flush);
    assert!(!d.pending);
}

#[test]
fn late_timer_still_flushes() {
    // A timer that fires long after its due time still sees the settled
    // window and flushes once.
    let mut d = Debouncer::new(500);
    d.on_event(0);
    assert_eq!(d.on_timer_fire(10_000), TimerVerdict::Flush);
}

#[test]
fn take_pending_reports_and_clears() {
    let mut d = Debouncer::new(500);
    assert!(!d.take_pending());
    d.on_event(1);
    assert!(d.take_pending());
    assert!(!d.pending);
}

#[test]
fn new_window_is_empty() {
    let d = Debouncer::new(250);
    assert!(!d.pending);
    assert_eq!(d.duration, 250);
}
