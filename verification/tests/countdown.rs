use invaders::timer::MoveTimer;

#[test]
fn countdown_runs_out_and_saturates() {
    let mut t = MoveTimer::from_millis(100);
    assert!(!t.ready);
    assert_eq!(t.time_left_ms, 100);
    t.update(60);
    assert!(!t.ready);
    assert_eq!(t.time_left_ms, 40);
    t.update(60);
    assert!(t.ready);
    assert_eq!(t.time_left_ms, 0);
    t.update(60);
    assert_eq!(t.time_left_ms, 0);
}

#[test]
fn reset_restarts_the_same_period() {
    let mut t = MoveTimer::from_millis(100);
    t.update(100);
    assert!(t.ready);
    t.reset();
    assert!(!t.ready);
    assert_eq!(t.duration_ms, 100);
    assert_eq!(t.time_left_ms, 100);
}
