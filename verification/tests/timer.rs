use shoyu::timer::Timer;

#[test]
fn a_timer_on_the_clock_keeps_what_it_measured() {
    let mut timer = Timer::new();

    timer.start();
    let running = timer.elapsed_ms();

    timer.pause();
    let paused = timer.elapsed_ms();
    assert!(paused >= running);
    assert_eq!(timer.elapsed_ms(), paused);

    timer.start();
    assert_eq!(timer.elapsed_ms(), paused);

    timer.stop();
    let stopped = timer.elapsed_ms();
    assert_eq!(timer.elapsed_ms(), stopped);

    timer.reset();
    assert_eq!(timer.elapsed_ms(), 0);
}

#[test]
fn a_running_timer_shows_the_time_since_its_start() {
    let mut timer = Timer::new();
    assert_eq!(timer.elapsed_ms_at(5_000_000_000), 0);
    timer.start_at(1_000_000_000);
    assert_eq!(timer.elapsed_ms_at(1_500_000_000), 500);
    assert_eq!(timer.elapsed_ms_at(1_500_999_999), 500);
    assert_eq!(timer.elapsed_ms_at(1_501_000_000), 501);
    assert_eq!(timer.elapsed_ms_at(999_999_999), 0);
}

#[test]
fn a_stopped_timer_shows_what_it_measured() {
    let mut timer = Timer::new();
    timer.start_at(100_000_000);
    timer.stop_at(350_000_000);
    assert_eq!(timer.elapsed_ms_at(9_000_000_000), 250);
    timer.stop_at(9_000_000_000);
    assert_eq!(timer.elapsed_ms_at(9_000_000_000), 250);
    timer.start_at(1_000_000_000);
    assert_eq!(timer.elapsed_ms_at(1_010_000_000), 10);
}

#[test]
fn a_paused_timer_resumes_at_the_second_start() {
    let mut timer = Timer::new();
    timer.start_at(0);
    timer.pause_at(500_000_000);
    assert_eq!(timer.elapsed_ms_at(700_000_000), 500);
    timer.start_at(700_000_000);
    assert_eq!(timer.elapsed_ms_at(1_000_000_000), 500);
    timer.start_at(1_000_000_000);
    assert_eq!(timer.elapsed_ms_at(1_000_000_000), 500);
    assert_eq!(timer.elapsed_ms_at(1_300_000_000), 800);
}

#[test]
fn a_reset_timer_is_as_new() {
    let mut timer = Timer::new();
    timer.start_at(10);
    timer.pause_at(5_000_000);
    timer.reset();
    assert_eq!(timer.elapsed_ms_at(1_000_000_000), 0);
    timer.start_at(2_000_000);
    assert_eq!(timer.elapsed_ms_at(5_000_000), 3);
}

#[test]
fn a_clone_keeps_the_state() {
    let mut timer = Timer::new();
    timer.start_at(0);
    timer.stop_at(42_000_000);
    let copy = timer.clone();
    assert_eq!(copy.elapsed_ms_at(0), 42);
}

#[test]
fn the_clock_does_not_run_backwards() {
    let timer = Timer::new();
    let first = timer.now();
    let second = timer.now();
    assert!(second >= first);
}
