use search_controller::polling::{PollObservation, PollOutcome, PollStep, Poller};

#[test]
fn poller_gives_up_after_its_limit() {
    let mut p = Poller::new(3);
    let mut pending = 0;
    while p.is_running() {
        match p.observe(PollObservation::Pending { pause_ms: 10 }) {
            PollStep::Retry { pause_ms } => {
                assert_eq!(pause_ms, 10);
                pending += 1;
            }
            _ => panic!("unexpected step"),
        }
    }
    assert_eq!(pending, 3);
    assert_eq!(p.attempts(), 3);
    assert!(matches!(p.outcome(), PollOutcome::Exhausted));
}

#[test]
fn poller_stops_at_the_first_answer() {
    let mut p = Poller::new(5);
    assert!(matches!(p.observe(PollObservation::Pending { pause_ms: 0 }), PollStep::Retry { pause_ms: 0 }));
    assert!(matches!(p.observe(PollObservation::Ready), PollStep::Finished));
    assert_eq!(p.attempts(), 2);
    assert!(!p.is_running());
    assert!(matches!(p.outcome(), PollOutcome::Succeeded));
    let mut q = Poller::new(5);
    assert!(matches!(q.observe(PollObservation::Failed), PollStep::Aborted));
    assert!(!q.is_running());
    assert!(matches!(q.outcome(), PollOutcome::Failed));
}

#[test]
fn poller_with_no_attempts() {
    let p = Poller::new(0);
    assert!(!p.is_running());
    assert_eq!(p.attempts(), 0);
    assert!(matches!(p.outcome(), PollOutcome::Exhausted));
}
