use rustimer::render::format_duration;
use rustimer::timer::tick_interval_millis;
use rustimer::timer::Timer;
use rustimer::tracker::ElapsedTimeTracker;
use rustimer::tracker::Message;
use rustimer::tracker::TickState;

#[test]
fn format_zero() {
    assert_eq!(format_duration(0), "00:00:00.00");
}

#[test]
fn format_one_hour_one_minute_one_second() {
    // 3661.256 seconds
    assert_eq!(format_duration(3_661_256), "01:01:01.25");
}

#[test]
fn format_truncates_hundredths() {
    assert_eq!(format_duration(999), "00:00:00.99");
    assert_eq!(format_duration(59_999), "00:00:59.99");
    assert_eq!(format_duration(10), "00:00:00.01");
    assert_eq!(format_duration(9), "00:00:00.00");
}

#[test]
fn format_hour_field_grows_past_two_digits() {
    assert_eq!(format_duration(3_600_000), "01:00:00.00");
    assert_eq!(format_duration(360_000_000), "100:00:00.00");
}

#[test]
fn new_tracker_is_stopped_at_zero() {
    let t = ElapsedTimeTracker::new(42);
    assert_eq!(t.total_duration, 0);
    assert_eq!(t.last_update, 42);
    assert_eq!(t.tick_state, TickState::Stopped);
    assert!(!t.is_running());
    assert_eq!(t.display(), "00:00:00.00");
}

#[test]
fn start_stop_accumulates_each_span() {
    let mut t = ElapsedTimeTracker::new(0);
    t.update(Message::Start, 10);
    assert!(t.is_running());
    t.update(Message::Stop, 25);
    assert_eq!(t.total_duration, 15);
    assert!(!t.is_running());
    t.update(Message::Start, 100);
    t.update(Message::Stop, 140);
    assert_eq!(t.total_duration, 55);
}

#[test]
fn ticks_fold_time_in_while_running() {
    let mut t = ElapsedTimeTracker::new(0);
    t.update(Message::Start, 0);
    t.update(Message::Update, 33);
    assert_eq!(t.total_duration, 33);
    assert_eq!(t.last_update, 33);
    t.update(Message::Update, 66);
    assert_eq!(t.total_duration, 66);
    t.update(Message::Stop, 80);
    assert_eq!(t.total_duration, 80);
}

#[test]
fn tick_while_stopped_is_noop() {
    let mut t = ElapsedTimeTracker::new(0);
    t.update(Message::Update, 500);
    assert_eq!(t.total_duration, 0);
    assert_eq!(t.last_update, 0);
    assert_eq!(t.tick_state, TickState::Stopped);
}

#[test]
fn reset_clears_display_and_keeps_mode() {
    let mut running = ElapsedTimeTracker::new(0);
    running.update(Message::Start, 0);
    running.update(Message::Update, 400);
    running.update(Message::Reset, 500);
    assert_eq!(running.total_duration, 0);
    assert_eq!(running.display(), "00:00:00.00");
    assert!(running.is_running());

    let mut stopped = ElapsedTimeTracker::new(0);
    stopped.update(Message::Start, 0);
    stopped.update(Message::Stop, 250);
    stopped.update(Message::Reset, 300);
    assert_eq!(stopped.total_duration, 0);
    assert_eq!(stopped.display(), "00:00:00.00");
    assert!(!stopped.is_running());
}

#[test]
fn reset_while_running_then_ticks_count_from_zero() {
    let mut t = ElapsedTimeTracker::new(0);
    t.update(Message::Start, 0);
    t.update(Message::Update, 450);
    t.update(Message::Reset, 500);
    assert_eq!(t.display(), "00:00:00.00");
    t.update(Message::Update, 600);
    assert_eq!(t.total_duration, 100);
    assert_eq!(t.display(), "00:00:00.10");
}

#[test]
fn repeated_resets_equal_one() {
    let mut once = ElapsedTimeTracker::new(0);
    once.update(Message::Start, 0);
    once.update(Message::Update, 40);
    once.update(Message::Reset, 90);

    let mut thrice = ElapsedTimeTracker::new(0);
    thrice.update(Message::Start, 0);
    thrice.update(Message::Update, 40);
    thrice.update(Message::Reset, 50);
    thrice.update(Message::Reset, 70);
    thrice.update(Message::Reset, 90);

    assert_eq!(once, thrice);
}

#[test]
fn simulated_run_of_one_and_a_half_seconds() {
    // Start, ticks every 33 ms, Stop at 1.5 s.
    let mut t = ElapsedTimeTracker::new(0);
    t.update(Message::Start, 0);
    let mut now: u64 = 33;
    while now < 1500 {
        t.update(Message::Update, now);
        now += 33;
    }
    t.update(Message::Stop, 1500);
    assert_eq!(t.total_duration, 1500);
    assert_eq!(t.display(), "00:00:01.50");
}

#[test]
fn stop_while_stopped_counts_the_span_again() {
    // A second Stop without an intervening Start folds the span since the
    // last Stop in once more.
    let mut t = ElapsedTimeTracker::new(0);
    t.update(Message::Start, 0);
    t.update(Message::Stop, 100);
    assert_eq!(t.total_duration, 100);
    t.update(Message::Stop, 150);
    assert_eq!(t.total_duration, 150);
}

#[test]
fn timer_holds_its_interval() {
    let timer = Timer::new(tick_interval_millis());
    assert_eq!(timer.duration_millis, 33);
    assert_eq!(Timer::new(250).duration_millis, 250);
}
