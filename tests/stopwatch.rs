use phasutils::stopwatch::StopWatch;

#[test]
fn new_watch_is_stopped_at_zero() {
    let w = StopWatch::new();
    assert!(!w.is_running());
    assert_eq!(w.elapsed_at(0), 0);
    assert_eq!(w.elapsed_at(1_000_000), 0);
    assert_eq!(w.elapsed(), 0);
}

#[test]
fn start_then_stop_measures_the_interval() {
    let mut w = StopWatch::new();
    w.start_at(100);
    assert!(w.is_running());
    assert_eq!(w.elapsed_at(300), 200);
    w.stop_at(350);
    assert!(!w.is_running());
    assert_eq!(w.elapsed_at(350), 250);
    assert_eq!(w.elapsed_at(10_000), 250);
}

#[test]
fn runs_accumulate() {
    let mut w = StopWatch::new();
    w.start_at(10);
    w.stop_at(40);
    w.start_at(100);
    w.stop_at(105);
    assert_eq!(w.elapsed_at(1000), 35);
}

#[test]
fn start_while_running_keeps_the_first_start() {
    let mut w = StopWatch::new();
    w.start_at(10);
    w.start_at(50);
    w.stop_at(60);
    assert_eq!(w.elapsed_at(60), 50);
}

#[test]
fn stop_while_stopped_changes_nothing() {
    let mut w = StopWatch::new();
    w.start_at(0);
    w.stop_at(20);
    w.stop_at(90);
    assert_eq!(w.elapsed_at(90), 20);
}

#[test]
fn reset_while_running_is_a_no_op() {
    let mut w = StopWatch::new();
    w.start_at(100);
    w.reset_at(150);
    assert!(w.is_running());
    assert_eq!(w.elapsed_at(200), 100);
}

#[test]
fn reset_while_stopped_goes_to_zero() {
    let mut w = StopWatch::new();
    w.start_at(100);
    w.stop_at(200);
    w.reset_at(300);
    assert_eq!(w.elapsed_at(400), 0);
    w.start_at(500);
    assert_eq!(w.elapsed_at(700), 200);
}

#[test]
fn clock_earlier_than_start_counts_as_zero() {
    let mut w = StopWatch::new();
    w.start_at(500);
    assert_eq!(w.elapsed_at(100), 0);
}

#[test]
fn elapsed_saturates_at_the_largest_value() {
    let mut w = StopWatch::new();
    w.start_at(0);
    w.stop_at(u64::MAX - 5);
    w.start_at(0);
    assert_eq!(w.elapsed_at(100), u64::MAX);
    w.stop_at(100);
    assert_eq!(w.elapsed_at(0), u64::MAX);
}

#[test]
fn clock_driven_watch_measures_forward() {
    let mut w = StopWatch::new();
    w.start();
    assert!(w.is_running());
    let a = w.elapsed();
    let b = w.elapsed();
    assert!(a <= b);
    w.stop();
    assert!(!w.is_running());
    let c = w.elapsed();
    assert_eq!(w.elapsed(), c);
    w.reset();
    assert_eq!(w.elapsed(), 0);
}

#[test]
fn clock_driven_reset_while_running_keeps_running() {
    let mut w = StopWatch::new();
    w.start();
    w.reset();
    assert!(w.is_running());
}
