use writingbuddy::timeline::Timeline;

#[test]
fn new_timeline_is_at_rest() {
    let t = Timeline::new();
    assert!(!t.timer_running());
    assert_eq!(t.elapsed_active_millis(), 0);
    assert_eq!(t.elapsed_active_seconds(), 0);
    assert_eq!(t.idle_millis(), None);
}

#[test]
fn timer_counts_only_while_it_runs() {
    let mut t = Timeline::new();
    t.advance(1_000);
    assert_eq!(t.elapsed_active_millis(), 0);
    t.start_timer();
    assert!(t.timer_running());
    t.advance(3_500);
    assert_eq!(t.elapsed_active_millis(), 2_500);
    assert_eq!(t.elapsed_active_seconds(), 2);
    t.stop_timer();
    assert!(!t.timer_running());
    t.advance(10_000);
    assert_eq!(t.elapsed_active_millis(), 2_500);
    t.start_timer();
    t.advance(10_700);
    assert_eq!(t.elapsed_active_millis(), 3_200);
    assert_eq!(t.elapsed_active_seconds(), 3);
}

#[test]
fn starting_a_running_timer_changes_nothing() {
    let mut t = Timeline::new();
    t.start_timer();
    t.advance(400);
    t.start_timer();
    t.advance(1_000);
    assert_eq!(t.elapsed_active_millis(), 1_000);
}

#[test]
fn stopping_a_stopped_timer_changes_nothing() {
    let mut t = Timeline::new();
    t.advance(50);
    t.stop_timer();
    assert_eq!(t.elapsed_active_millis(), 0);
    t.start_timer();
    t.advance(80);
    t.stop_timer();
    t.stop_timer();
    assert_eq!(t.elapsed_active_millis(), 30);
}

#[test]
fn reset_stops_the_timer_at_zero() {
    let mut t = Timeline::new();
    t.start_timer();
    t.advance(9_000);
    t.reset_timer();
    assert!(!t.timer_running());
    assert_eq!(t.elapsed_active_millis(), 0);
    t.advance(12_000);
    assert_eq!(t.elapsed_active_millis(), 0);
}

#[test]
fn silence_is_measured_from_the_last_keystroke() {
    let mut t = Timeline::new();
    t.advance(100);
    t.mark_keystroke();
    assert_eq!(t.idle_millis(), Some(0));
    t.advance(350);
    assert_eq!(t.idle_millis(), Some(250));
    t.mark_keystroke();
    assert_eq!(t.idle_millis(), Some(0));
    t.forget_keystroke();
    assert_eq!(t.idle_millis(), None);
}

#[test]
fn an_earlier_time_leaves_the_clock() {
    let mut t = Timeline::new();
    t.advance(5_000);
    t.start_timer();
    t.mark_keystroke();
    t.advance(1_000);
    assert_eq!(t.elapsed_active_millis(), 0);
    assert_eq!(t.idle_millis(), Some(0));
    t.advance(u64::MAX);
    assert_eq!(t.elapsed_active_millis(), u64::MAX - 5_000);
    assert_eq!(t.idle_millis(), Some(u64::MAX - 5_000));
    t.stop_timer();
    t.start_timer();
    assert_eq!(t.elapsed_active_millis(), u64::MAX - 5_000);
}
