use zutils::monitor::Monitor;
use zutils::monitor::PollStep;

#[test]
fn test_timeout_after_exact_budget_of_checks() {
    // floor(1000 / 100) = 10 checks, not one more or fewer.
    let mut monitor = Monitor::new(1000, 100);
    let mut checks = 0u64;
    let mut last = PollStep::Wait;
    while monitor.should_query() {
        checks += 1;
        last = monitor.observe(false);
        if matches!(last, PollStep::TimedOut) {
            break;
        }
    }
    assert_eq!(checks, 10);
    assert_eq!(last, PollStep::TimedOut);
    assert!(!monitor.should_query());
}

#[test]
fn test_budget_is_floored() {
    let monitor = Monitor::new(1050, 100);
    assert_eq!(monitor.remaining, 10);
    let tiny = Monitor::new(50, 100);
    assert_eq!(tiny.remaining, 0);
    assert!(!tiny.should_query());
}

#[test]
fn test_wait_stops_at_first_hit() {
    let mut monitor = Monitor::new(500, 100);
    assert_eq!(monitor.observe(false), PollStep::Wait);
    assert_eq!(monitor.observe(false), PollStep::Wait);
    assert_eq!(monitor.observe(true), PollStep::Reached);
    // The hit does not consume budget.
    assert_eq!(monitor.remaining, 3);
}

#[test]
fn test_last_check_times_out() {
    let mut monitor = Monitor::new(100, 100);
    assert_eq!(monitor.remaining, 1);
    assert_eq!(monitor.observe(false), PollStep::TimedOut);
}
