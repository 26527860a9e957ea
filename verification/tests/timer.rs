use sprite_animation::timer::AnimationTimer;

#[test]
fn completion_keeps_the_remainder() {
    let mut timer = AnimationTimer::from_nanos(100);
    timer.tick(250);
    assert!(timer.just_finished());
    assert_eq!(timer.elapsed_ns, 50);
}

#[test]
fn completion_report_clears_on_the_next_tick() {
    let mut timer = AnimationTimer::from_nanos(100);
    timer.tick(100);
    assert!(timer.just_finished());
    timer.tick(30);
    assert!(!timer.just_finished());
    assert_eq!(timer.elapsed_ns, 30);
}

#[test]
fn progress_accumulates_across_ticks() {
    let mut timer = AnimationTimer::from_nanos(100);
    timer.tick(60);
    assert!(!timer.just_finished());
    timer.tick(60);
    assert!(timer.just_finished());
    assert_eq!(timer.elapsed_ns, 20);
}

#[test]
fn exact_boundary_completes() {
    let mut timer = AnimationTimer::from_nanos(100);
    timer.tick(100);
    assert!(timer.just_finished());
    assert_eq!(timer.elapsed_ns, 0);
}

#[test]
fn zero_duration_completes_every_tick() {
    let mut timer = AnimationTimer::from_nanos(0);
    timer.tick(0);
    assert!(timer.just_finished());
    assert_eq!(timer.elapsed_ns, 0);
    timer.tick(7);
    assert!(timer.just_finished());
    assert_eq!(timer.elapsed_ns, 0);
}

#[test]
fn elapsed_time_saturates_instead_of_overflowing() {
    let mut timer = AnimationTimer::from_nanos(u64::MAX);
    timer.tick(u64::MAX - 1);
    assert!(!timer.just_finished());
    timer.tick(u64::MAX);
    assert!(timer.just_finished());
    assert_eq!(timer.elapsed_ns, 0);
}

#[test]
fn set_duration_keeps_progress_and_report() {
    let mut timer = AnimationTimer::from_nanos(100);
    timer.tick(120);
    assert!(timer.just_finished());
    timer.set_duration(500);
    assert_eq!(timer.duration_ns, 500);
    assert_eq!(timer.elapsed_ns, 20);
    assert!(timer.just_finished());
}
