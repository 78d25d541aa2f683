use button_chaos::timer::{ElapsedTime, IntervalTimer, TimerMode};

#[test]
fn a_repeating_timer_keeps_the_overshoot() {
    let mut timer = IntervalTimer::new(2_500_000, TimerMode::Repeating);
    assert_eq!((timer.elapsed, timer.finished, timer.just_finished), (0, false, false));
    timer.tick(1_000_000);
    timer.tick(1_000_000);
    assert_eq!((timer.elapsed, timer.finished, timer.just_finished), (2_000_000, false, false));
    timer.tick(1_000_000);
    assert_eq!((timer.elapsed, timer.finished, timer.just_finished), (500_000, true, true));
    timer.tick(1_000_000);
    assert_eq!((timer.elapsed, timer.finished, timer.just_finished), (1_500_000, false, false));
    timer.tick(6_000_000);
    assert_eq!((timer.elapsed, timer.finished, timer.just_finished), (0, true, true));
}

#[test]
fn a_repeating_timer_of_no_length_finishes_every_tick() {
    let mut timer = IntervalTimer::new(0, TimerMode::Repeating);
    timer.tick(7);
    assert_eq!((timer.elapsed, timer.finished), (0, true));
    timer.tick(0);
    assert_eq!((timer.elapsed, timer.finished), (0, true));
}

#[test]
fn a_one_shot_timer_stops_at_its_interval() {
    let mut timer = IntervalTimer::new(3_000_000, TimerMode::Once);
    timer.tick(2_999_999);
    assert_eq!((timer.elapsed, timer.finished, timer.just_finished), (2_999_999, false, false));
    timer.tick(5_000_000);
    assert_eq!((timer.elapsed, timer.finished, timer.just_finished), (3_000_000, true, true));
    timer.tick(5_000_000);
    assert_eq!((timer.elapsed, timer.finished, timer.just_finished), (3_000_000, true, false));
    timer.reset();
    assert_eq!(timer, IntervalTimer::new(3_000_000, TimerMode::Once));
    timer.tick(3_000_000);
    assert!(timer.just_finished);
}

#[test]
fn a_timer_takes_the_longest_tick() {
    let mut timer = IntervalTimer::new(10, TimerMode::Repeating);
    timer.tick(u64::MAX);
    timer.tick(u64::MAX);
    assert!(timer.finished);
    assert_eq!(timer.elapsed, ((5u128 + u64::MAX as u128) % 10) as u64);
}

#[test]
fn the_clock_counts_up_and_stops_at_its_limit() {
    let mut clock = ElapsedTime::default();
    assert_eq!(clock, ElapsedTime(0));
    clock.increment_time(1_250_000);
    clock.increment_time(250_000);
    assert_eq!(clock, ElapsedTime(1_500_000));
    clock.increment_time(u64::MAX);
    assert_eq!(clock, ElapsedTime(u64::MAX));
}

#[test]
fn the_clock_face_rounds_to_nearest_and_halves_to_even() {
    assert_eq!(ElapsedTime(0).clock_face(), (0, 0));
    assert_eq!(ElapsedTime(12_400_000).clock_face(), (0, 12));
    assert_eq!(ElapsedTime(29_999_999).clock_face(), (0, 30));
    assert_eq!(ElapsedTime(30_000_000).clock_face(), (0, 30));
    assert_eq!(ElapsedTime(30_000_001).clock_face(), (1, 30));
    assert_eq!(ElapsedTime(90_000_000).clock_face(), (2, 30));
    assert_eq!(ElapsedTime(150_000_000).clock_face(), (2, 30));
    assert_eq!(ElapsedTime(59_600_000).clock_face(), (1, 60));
    assert_eq!(ElapsedTime(1_500_000).clock_face(), (0, 2));
    assert_eq!(ElapsedTime(2_500_000).clock_face(), (0, 2));
    assert_eq!(ElapsedTime(u64::MAX).clock_face(), (307_445_734_562, 50));
}
