use gc_session::batch::{Args, Batch};
use gc_session::fetch::{FetchFailure, RetryDecision, RetryPolicy};

fn args() -> Args {
    Args {
        username: "salty".to_string(),
        password: "secret".to_string(),
        match_ids: vec![12345, 7, 7, 99],
    }
}

#[test]
fn order_names_the_credentials() {
    let cfg = args().bot_config();
    assert_eq!(cfg.username, "salty");
    assert_eq!(cfg.password, "secret");
}

#[test]
fn order_clones_field_by_field() {
    let copy = args().clone();
    assert_eq!(copy.username, "salty");
    assert_eq!(copy.password, "secret");
    assert_eq!(copy.match_ids, vec![12345, 7, 7, 99]);
}

#[test]
fn batch_walks_the_matches_in_the_order_given() {
    let mut batch = args().batch();
    let mut seen = Vec::new();
    while let Some(id) = batch.current() {
        seen.push(id);
        batch.record(Ok(()));
    }
    assert_eq!(seen, vec![12345, 7, 7, 99]);
    assert_eq!(batch.attempted(), 4);
    assert_eq!(batch.failed(), 0);
}

#[test]
fn failure_on_one_match_does_not_keep_the_next_from_its_turn() {
    let failures = [
        FetchFailure::Transport,
        FetchFailure::Malformed,
        FetchFailure::RateLimited,
        FetchFailure::Rejected { result: Some(0) },
        FetchFailure::Rejected { result: None },
        FetchFailure::Delivery,
    ];
    for failure in failures {
        let mut batch = Batch::new(vec![1, 2, 3]);
        assert_eq!(batch.current(), Some(1));
        batch.record(Err(failure));
        assert_eq!(batch.current(), Some(2));
        batch.record(Ok(()));
        assert_eq!(batch.current(), Some(3));
        batch.record(Err(failure));
        assert_eq!(batch.current(), None);
        assert_eq!(batch.attempted(), 3);
        assert_eq!(batch.failed(), 2);
    }
}

#[test]
fn batch_in_which_everything_fails_still_attempts_everything() {
    let ids: Vec<u64> = (1..=50).collect();
    let mut batch = Batch::new(ids.clone());
    let mut seen = Vec::new();
    while let Some(id) = batch.current() {
        seen.push(id);
        batch.record(Err(FetchFailure::Rejected { result: Some(3) }));
    }
    assert_eq!(seen, ids);
    assert_eq!(batch.failed(), 50);
}

#[test]
fn empty_batch_is_through_at_once() {
    let mut batch = Batch::new(Vec::new());
    assert_eq!(batch.current(), None);
    assert_eq!(batch.attempted(), 0);
    batch.record(Err(FetchFailure::Transport));
    assert_eq!(batch.current(), None);
    assert_eq!(batch.attempted(), 0);
    assert_eq!(batch.failed(), 0);
}

#[test]
fn outcome_after_the_last_match_is_ignored() {
    let mut batch = Batch::new(vec![4]);
    batch.record(Ok(()));
    batch.record(Err(FetchFailure::Delivery));
    batch.record(Ok(()));
    assert_eq!(batch.current(), None);
    assert_eq!(batch.attempted(), 1);
    assert_eq!(batch.failed(), 0);
}

#[test]
fn current_does_not_advance_the_batch() {
    let batch = Batch::new(vec![8, 9]);
    assert_eq!(batch.current(), Some(8));
    assert_eq!(batch.current(), Some(8));
    assert_eq!(batch.attempted(), 0);
}

#[test]
fn rejected_match_is_fetched_once_and_the_next_match_follows() {
    let policy = RetryPolicy::for_fetch();
    let mut batch = Batch::new(vec![12345, 67890]);
    let mut cycles: Vec<u64> = Vec::new();
    while let Some(id) = batch.current() {
        let mut retries = 0;
        let outcome = loop {
            cycles.push(id);
            let failure = FetchFailure::Rejected { result: Some(2) };
            match policy.decide(retries, &failure) {
                RetryDecision::Retry { retries: next, .. } => retries = next,
                RetryDecision::Stop => break Err(failure),
            }
        };
        batch.record(outcome);
    }
    assert_eq!(cycles, vec![12345, 67890]);
    assert_eq!(batch.failed(), 2);
}
