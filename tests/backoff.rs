use actor_core_client::backoff::Backoff;
use actor_core_client::supervisor::{
    Supervisor, SupervisorCommand, WaitOutcome, INITIAL_DELAY_MS, MAX_DELAY_MS,
};

#[test]
fn backoff_doubles_up_to_the_cap() {
    let mut b = Backoff::new(1000, 30000);
    assert_eq!(b.delay(), 1000);
    assert_eq!(b.max_delay(), 30000);
    let waits: Vec<u64> = (0..7).map(|_| b.tick()).collect();
    assert_eq!(waits, vec![1000, 2000, 4000, 8000, 16000, 30000, 30000]);
    assert_eq!(b.delay(), 30000);
}

#[test]
fn backoff_near_the_largest_value_does_not_overflow() {
    let mut b = Backoff::new(u64::MAX - 1, u64::MAX);
    assert_eq!(b.tick(), u64::MAX - 1);
    assert_eq!(b.delay(), u64::MAX);
}

#[test]
fn supervisor_waits_longer_until_open_then_resets() {
    let (mut s, first) = Supervisor::new();
    assert_eq!(first, SupervisorCommand::Connect);
    assert_eq!(s.attempt_ended(false, false), SupervisorCommand::Wait { delay_ms: INITIAL_DELAY_MS });
    assert_eq!(s.wait_ended(WaitOutcome::Elapsed), SupervisorCommand::Connect);
    assert_eq!(s.attempt_ended(false, false), SupervisorCommand::Wait { delay_ms: 2000 });
    assert_eq!(s.wait_ended(WaitOutcome::Elapsed), SupervisorCommand::Connect);
    assert_eq!(s.attempt_ended(true, false), SupervisorCommand::Connect);
    assert_eq!(s.delay(), INITIAL_DELAY_MS);
    assert_eq!(s.attempt_ended(false, false), SupervisorCommand::Wait { delay_ms: 1000 });
}

#[test]
fn supervisor_delay_is_capped() {
    let (mut s, _) = Supervisor::new();
    let mut last = 0;
    for _ in 0..10 {
        match s.attempt_ended(false, false) {
            SupervisorCommand::Wait { delay_ms } => {
                assert!(delay_ms >= last);
                assert!(delay_ms <= MAX_DELAY_MS);
                last = delay_ms;
            }
            other => panic!("unexpected {:?}", other),
        }
        s.wait_ended(WaitOutcome::Elapsed);
    }
    assert_eq!(last, MAX_DELAY_MS);
}

#[test]
fn supervisor_stops_on_drain_or_shutdown() {
    let (mut s, _) = Supervisor::new();
    assert_eq!(s.attempt_ended(true, true), SupervisorCommand::Exit);
    let (mut s, _) = Supervisor::new();
    s.attempt_ended(false, false);
    assert_eq!(s.wait_ended(WaitOutcome::Shutdown), SupervisorCommand::Exit);
    assert_eq!(s.wait_ended(WaitOutcome::Elapsed), SupervisorCommand::Exit);
    let (mut s, _) = Supervisor::new();
    s.attempt_ended(false, false);
    assert_eq!(s.wait_ended(WaitOutcome::Drained), SupervisorCommand::Exit);
}
