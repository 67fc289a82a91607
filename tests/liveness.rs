use node_harness::{
    after_batch, check_progress, poll_round, sent_units_measurement, sync_measurement,
    tips_converged, BatchOutcome, Duration, NodeObservation, NodeStuckError, ScenarioResult,
    Status, SyncDecision,
};

fn obs(tip: &str, counter: u64, logs: &str) -> NodeObservation {
    NodeObservation::new(tip.to_string(), counter, logs.to_string())
}

fn tips(v: &[&str]) -> Vec<String> {
    v.iter().map(|s| s.to_string()).collect()
}

#[test]
fn progress_when_tip_and_counter_both_move() {
    assert!(check_progress(&obs("a", 1, ""), &obs("b", 2, "")).is_ok());
}

#[test]
fn unmoved_tip_is_reported_whatever_the_counter() {
    match check_progress(&obs("a", 1, "old"), &obs("a", 2, "new")) {
        Err(NodeStuckError::TipIsNotMoving { tip_hash, logs }) => {
            assert_eq!(tip_hash, "a");
            assert_eq!(logs, "new");
        }
        other => panic!("unexpected {:?}", other),
    }
    assert!(matches!(
        check_progress(&obs("a", 1, ""), &obs("a", 1, "")),
        Err(NodeStuckError::TipIsNotMoving { .. })
    ));
}

#[test]
fn moved_tip_with_unchanged_counter_is_reported() {
    match check_progress(&obs("a", 4, "old"), &obs("b", 4, "tail")) {
        Err(NodeStuckError::BlockCounterIsNoIncreased { block_counter, logs }) => {
            assert_eq!(block_counter, 4);
            assert_eq!(logs, "tail");
        }
        other => panic!("unexpected {:?}", other),
    }
}

#[test]
fn three_nodes_two_agree_is_not_converged() {
    assert!(!tips_converged(&tips(&["A", "A", "B"])));
    assert_eq!(
        poll_round(&tips(&["A", "A", "B"]), Duration::from_secs(1), Duration::from_secs(10)),
        SyncDecision::KeepWaiting
    );
}

#[test]
fn three_nodes_all_agree_is_converged() {
    assert!(tips_converged(&tips(&["A", "A", "A"])));
    assert_eq!(
        poll_round(&tips(&["A", "A", "A"]), Duration::from_secs(1), Duration::from_secs(10)),
        SyncDecision::Converged
    );
}

#[test]
fn no_convergence_past_the_timeout_times_out() {
    assert_eq!(
        poll_round(&tips(&["A", "B"]), Duration::from_millis(10_001), Duration::from_secs(10)),
        SyncDecision::TimedOut
    );
    assert_eq!(
        poll_round(&tips(&["A", "B"]), Duration::from_secs(10), Duration::from_secs(10)),
        SyncDecision::KeepWaiting
    );
    assert_eq!(
        poll_round(&tips(&["A", "A"]), Duration::from_secs(50), Duration::from_secs(10)),
        SyncDecision::Converged
    );
}

#[test]
fn two_nodes_converging_in_four_seconds_of_ten_is_yellow() {
    let m = sync_measurement(
        "two_transaction_to_two_leaders_block_sync".to_string(),
        Duration::from_secs(4),
        Duration::from_secs(10),
    );
    assert_eq!(m.result(), Status::Yellow);
    assert_eq!(m.actual(), Duration::from_secs(4));
    assert_eq!(m.thresholds().max(), Duration::from_secs(10));
}

#[test]
fn single_node_converges_at_once_and_is_green() {
    assert!(tips_converged(&tips(&["A"])));
    assert!(tips_converged(&tips(&[])));
    assert_eq!(
        poll_round(&tips(&["A"]), Duration::from_secs(0), Duration::from_secs(10)),
        SyncDecision::Converged
    );
    let m = sync_measurement("single".to_string(), Duration::from_secs(0), Duration::from_secs(10));
    assert_eq!(m.result(), Status::Green);
}

#[test]
fn frozen_node_aborts_after_the_first_batch() {
    let before = obs("genesis", 0, "");
    let after = obs("tip1", 0, "frozen");
    match after_batch(0, 10, &before, &after) {
        BatchOutcome::Stalled(NodeStuckError::BlockCounterIsNoIncreased { block_counter, logs }) => {
            assert_eq!(block_counter, 0);
            assert_eq!(logs, "frozen");
        }
        other => panic!("unexpected {:?}", other),
    }
}

#[test]
fn batches_continue_then_finish() {
    assert!(matches!(
        after_batch(0, 2, &obs("a", 0, ""), &obs("b", 1, "")),
        BatchOutcome::Continue
    ));
    assert!(matches!(
        after_batch(1, 2, &obs("b", 1, ""), &obs("c", 2, "")),
        BatchOutcome::Finished
    ));
    assert!(matches!(
        after_batch(1, 2, &obs("b", 1, ""), &obs("b", 2, "")),
        BatchOutcome::Stalled(NodeStuckError::TipIsNotMoving { .. })
    ));
}

#[test]
fn units_sent_before_a_stall_are_measured() {
    let m = sent_units_measurement("packs".to_string(), 2, 10, 1);
    assert_eq!(m.actual(), 10);
    assert_eq!(m.thresholds().max(), 20);
    assert_eq!(m.result(), Status::Green);
    let none = sent_units_measurement("packs".to_string(), 2, 10, 0);
    assert_eq!(none.result(), Status::Red);
    let all = sent_units_measurement("packs".to_string(), 2, 10, 2);
    assert_eq!(all.actual(), 20);
}

#[test]
fn scenario_results_keep_their_measurements() {
    let m = sync_measurement("s".to_string(), Duration::from_secs(1), Duration::from_secs(10));
    let r = ScenarioResult::passed_with_measurements(vec![m]);
    assert!(r.passed);
    assert_eq!(r.measurements.len(), 1);
    let f = ScenarioResult::failed_with_measurements(vec![]);
    assert!(!f.passed);
    assert!(f.measurements.is_empty());
}
