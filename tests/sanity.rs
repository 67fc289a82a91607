use node_harness::{after_batch, BatchOutcome, Duration, NodeObservation};

fn observe(round: u64) -> NodeObservation {
    NodeObservation::new(format!("tip{}", round), round, String::new())
}

#[test]
fn test_100_transaction_is_processed_simple() {
    let total: u64 = 100;
    for i in 0..total {
        println!("Sending transaction no. {}", i);
        let outcome = after_batch(i, total, &observe(i), &observe(i + 1));
        if i + 1 < total {
            assert!(matches!(outcome, BatchOutcome::Continue));
        } else {
            assert!(matches!(outcome, BatchOutcome::Finished));
        }
    }
}

#[test]
fn test_blocks_are_being_created_for_more_than_15_minutes() {
    let slot_duration: u64 = 4;
    let limit = Duration::from_secs(900);
    let mut counter: u64 = 0;
    loop {
        let before = observe(counter);
        let after = observe(counter + 1);
        assert!(matches!(
            after_batch(0, 43200, &before, &after),
            BatchOutcome::Continue
        ));
        counter = counter + 1;
        println!("Transaction no. {} is in block", counter);
        let elapsed = Duration::from_secs(counter * slot_duration);
        if !elapsed.at_most(&limit) {
            break;
        }
    }
    assert_eq!(counter, 226);
}
