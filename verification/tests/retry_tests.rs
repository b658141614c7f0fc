use bundle_relay::config::MAX_ATTEMPTS;
use bundle_relay::retry::{run_recorded, AttemptOutcome, RetrySession, RunOutcome};

fn included(tag: u8) -> AttemptOutcome {
    AttemptOutcome::Included { bundle_hash: vec![tag; 32], tx_hashes: vec![vec![tag; 32]; 2] }
}

#[test]
fn target_block_is_base_plus_attempt_index() {
    let mut session = RetrySession::new(1000);
    assert_eq!(session.target_block(), 1000);
    assert!(session.record(AttemptOutcome::NotIncluded).is_none());
    assert_eq!(session.target_block(), 1001);
    assert!(session.record(AttemptOutcome::Failed).is_none());
    assert_eq!(session.target_block(), 1002);
}

#[test]
fn two_attempt_scenario() {
    // Base height 1000, attempt 0 not included, attempt 1 included:
    // exactly two cycles, targeting blocks 1000 and 1001.
    let outcomes = vec![AttemptOutcome::NotIncluded, included(7)];
    let (cycles, targets, outcome) = run_recorded(1000, outcomes);
    assert_eq!(cycles, 2);
    assert_eq!(targets, vec![1000, 1001]);
    match outcome {
        Some(RunOutcome::Included { attempt, bundle_hash, tx_hashes }) => {
            assert_eq!(attempt, 1);
            assert_eq!(bundle_hash, vec![7u8; 32]);
            assert_eq!(tx_hashes, vec![vec![7u8; 32]; 2]);
        }
        other => panic!("expected inclusion, got {:?}", other.is_some()),
    }
}

#[test]
fn first_success_ends_the_run_at_once() {
    let (cycles, targets, outcome) = run_recorded(42, vec![included(1)]);
    assert_eq!(cycles, 1);
    assert_eq!(targets, vec![42]);
    assert!(matches!(outcome, Some(RunOutcome::Included { attempt: 0, .. })));
}

#[test]
fn exhaustion_is_silent_after_all_attempts() {
    let outcomes: Vec<AttemptOutcome> =
        (0..MAX_ATTEMPTS).map(|_| AttemptOutcome::NotIncluded).collect();
    let (cycles, targets, outcome) = run_recorded(5, outcomes);
    assert_eq!(cycles, MAX_ATTEMPTS);
    assert_eq!(targets.len(), MAX_ATTEMPTS as usize);
    assert_eq!(targets.first(), Some(&5));
    assert_eq!(targets.last(), Some(&(5 + MAX_ATTEMPTS - 1)));
    assert!(matches!(outcome, Some(RunOutcome::Exhausted)));
}

#[test]
fn other_errors_do_not_end_the_run() {
    let outcomes = vec![AttemptOutcome::Failed, AttemptOutcome::Failed, included(9)];
    let (cycles, targets, outcome) = run_recorded(100, outcomes);
    assert_eq!(cycles, 3);
    assert_eq!(targets, vec![100, 101, 102]);
    assert!(matches!(outcome, Some(RunOutcome::Included { attempt: 2, .. })));
}

#[test]
fn a_short_recording_leaves_the_run_unresolved() {
    let outcomes = vec![AttemptOutcome::NotIncluded, AttemptOutcome::NotIncluded];
    let (cycles, targets, outcome) = run_recorded(0, outcomes);
    assert_eq!(cycles, 2);
    assert_eq!(targets, vec![0, 1]);
    assert!(outcome.is_none());
}
